//! A variant of the canonical rover scenario: forward, turn right, stop, under
//! a different command label and port set.

use vstd::prelude::*;

use crate::payload::{bytes_are, Payload};
use crate::plan::{
    command_step_is, setpoint_step_is, step_payload, step_signature, Action, Capture,
    ScenarioPlan, Step, Validity, QUANTUM_MICROS,
};
use crate::port::{signature_is, PortKind, PortSignature};
use crate::run::{ScenarioRun, VerifyError};

verus! {

/// Two seconds.
pub const DURATION_MICROS: u64 = 2_000_000;

/// `s` is the motion command setpoint port of this variant.
pub open spec fn is_motion_setpoint_sig(s: PortSignature) -> bool {
    signature_is(s, "motion/cmd"@, "phoxal.motion"@, "Set"@, PortKind::Setpoint, "SetpointRequest"@, "SetpointReply"@)
}

/// `s` is the motion turn command port of this variant.
pub open spec fn is_motion_command_sig(s: PortSignature) -> bool {
    signature_is(s, "motion/turn"@, "phoxal.motion"@, "Turn"@, PortKind::Commands, "TurnRequest"@, "TurnReply"@)
}

/// `s` is the motion state port of this variant.
pub open spec fn is_motion_state_sig(s: PortSignature) -> bool {
    signature_is(s, "motion/state"@, "phoxal.motion"@, "State"@, PortKind::State, "State"@, "State"@)
}

/// `s` is the safety state port of this variant.
pub open spec fn is_safety_state_sig(s: PortSignature) -> bool {
    signature_is(s, "safety/state"@, "phoxal.safety"@, "State"@, PortKind::State, "SafetyState"@, "SafetyState"@)
}

/// Signature of the motion command setpoint port.
pub fn motion_setpoint_sig() -> (s: PortSignature)
    ensures
        is_motion_setpoint_sig(s),
{
    PortSignature::new("motion/cmd", "phoxal.motion", "Set", PortKind::Setpoint, "SetpointRequest", "SetpointReply")
}

/// Signature of the motion turn command port.
pub fn motion_command_sig() -> (s: PortSignature)
    ensures
        is_motion_command_sig(s),
{
    PortSignature::new("motion/turn", "phoxal.motion", "Turn", PortKind::Commands, "TurnRequest", "TurnReply")
}

/// Signature of the motion state port.
pub fn motion_state_sig() -> (s: PortSignature)
    ensures
        is_motion_state_sig(s),
{
    PortSignature::new("motion/state", "phoxal.motion", "State", PortKind::State, "State", "State")
}

/// Signature of the safety state port.
pub fn safety_state_sig() -> (s: PortSignature)
    ensures
        is_safety_state_sig(s),
{
    PortSignature::new("safety/state", "phoxal.safety", "State", PortKind::State, "SafetyState", "SafetyState")
}

/// Canonical rover scenario variant: drive forward, turn right, stop.
#[derive(Debug, Default)]
pub struct ForwardTurnStop2;

/// `p` is the scenario's plan, field by field.
pub open spec fn is_plan(p: ScenarioPlan) -> bool {
    let s = p.steps@;
    &&& p.scene@ == "scenarios/ForwardTurnStop2"@
    &&& p.duration_micros == DURATION_MICROS
    &&& s.len() == 3
    &&& setpoint_step_is(s[0], "forward"@, 0, "motion"@)
    &&& is_motion_setpoint_sig(step_signature(s[0]))
    &&& bytes_are(step_payload(s[0]), seq![0x01u8, 0x02u8, 0x03u8, 0x04u8])
    &&& command_step_is(s[1], "turn_right"@, 300, "motion"@, "turn_right"@, 500_000, 1_000_000)
    &&& is_motion_command_sig(step_signature(s[1]))
    &&& bytes_are(step_payload(s[1]), seq![0x40u8, 0x50u8, 0x60u8])
    &&& setpoint_step_is(s[2], "stop"@, 600, "motion"@)
    &&& is_motion_setpoint_sig(step_signature(s[2]))
    &&& bytes_are(step_payload(s[2]), seq![0x00u8])
    &&& p.captures@.len() == 2
    &&& p.captures@[0].name@ == "motion"@
    &&& is_motion_state_sig(p.captures@[0].signature)
    &&& p.captures@[1].name@ == "safety"@
    &&& is_safety_state_sig(p.captures@[1].signature)
}

impl ForwardTurnStop2 {
    /// The scenario's plan: forward at 0 ms, turn right at boundary 300, stop at
    /// boundary 600, with the motion and safety states captured.
    pub fn plan(&self) -> (p: ScenarioPlan)
        ensures
            is_plan(p),
    {
        let setpoint = motion_setpoint_sig();
        let command = motion_command_sig();
        let motion_state = motion_state_sig();
        let safety_state = safety_state_sig();
        let mut forward_bytes: Vec<u8> = Vec::new();
        forward_bytes.push(0x01);
        forward_bytes.push(0x02);
        forward_bytes.push(0x03);
        forward_bytes.push(0x04);
        let forward = Action::setpoint(
            "motion",
            setpoint,
            Payload::Bytes(forward_bytes),
            Validity::Permanent,
        );
        let mut turn_bytes: Vec<u8> = Vec::new();
        turn_bytes.push(0x40);
        turn_bytes.push(0x50);
        turn_bytes.push(0x60);
        let turn = Action::command(
            "motion",
            command,
            Payload::Bytes(turn_bytes),
            "turn_right",
            500_000,
            1_000_000,
        );
        let mut stop_bytes: Vec<u8> = Vec::new();
        stop_bytes.push(0x00);
        let stop = Action::setpoint(
            "motion",
            motion_setpoint_sig(),
            Payload::Bytes(stop_bytes),
            Validity::Permanent,
        );
        let mut steps: Vec<Step> = Vec::new();
        steps.push(Step::new("forward", 0, forward));
        steps.push(Step::new("turn_right", 300, turn));
        steps.push(Step::new("stop", 600, stop));
        let mut captures: Vec<Capture> = Vec::new();
        captures.push(Capture::state("motion", motion_state));
        captures.push(Capture::state("safety", safety_state));
        assert(steps@[0].action->Setpoint_payload matches Payload::Bytes(b) && b@ =~= seq![0x01u8, 0x02u8, 0x03u8, 0x04u8]);
        assert(steps@[1].action->Command_request matches Payload::Bytes(b) && b@ =~= seq![0x40u8, 0x50u8, 0x60u8]);
        assert(steps@[2].action->Setpoint_payload matches Payload::Bytes(b) && b@ =~= seq![0x00u8]);
        ScenarioPlan {
            scene: "scenarios/ForwardTurnStop2".to_owned(),
            duration_micros: DURATION_MICROS,
            steps,
            captures,
        }
    }

    /// Accepts every run.
    pub fn verify(&self, run: &ScenarioRun) -> (r: Result<(), VerifyError>)
        ensures
            r is Ok,
    {
        Ok(())
    }
}

/// The plan is well formed at the rover's quantum: all three
/// steps, in boundary order, fall inside its thousand transitions.
pub proof fn lemma_plan_well_formed(p: ScenarioPlan)
    requires
        is_plan(p),
    ensures
        p.well_formed(QUANTUM_MICROS as int),
        p.transition_count(QUANTUM_MICROS as int) == 1000,
{
    reveal_strlit("forward");
    reveal_strlit("turn_right");
    reveal_strlit("stop");
    reveal_strlit("motion");
    reveal_strlit("safety");
    let s = p.steps@;
    assert(s[0].label@.len() != s[1].label@.len());
    assert(s[0].label@.len() != s[2].label@.len());
    assert(s[1].label@.len() != s[2].label@.len());
    assert(p.captures@[0].name@ != p.captures@[1].name@) by {
        assert(p.captures@[0].name@[0] != p.captures@[1].name@[0]);
    }
}

/// Every setpoint goes to the variant's motion command port and every command
/// to its turn port; so the stop replaces the forward setpoint on the same
/// port, and any two setpoints address the same port.
pub proof fn lemma_requests_reach_their_ports(p: ScenarioPlan)
    requires
        is_plan(p),
    ensures
        forall|i: int|
            0 <= i < p.steps@.len() ==> {
                let sig = step_signature(#[trigger] p.steps@[i]);
                &&& p.steps@[i].action is Setpoint ==> (sig.name@ == "motion/cmd"@ && sig.service@ == "phoxal.motion"@ && sig.method@ == "Set"@
                    && sig.kind == PortKind::Setpoint && sig.request_type@ == "SetpointRequest"@
                    && sig.reply_type@ == "SetpointReply"@)
                &&& p.steps@[i].action is Command ==> (sig.name@ == "motion/turn"@ && sig.service@ == "phoxal.motion"@ && sig.method@ == "Turn"@
                    && sig.kind == PortKind::Commands && sig.request_type@ == "TurnRequest"@
                    && sig.reply_type@ == "TurnReply"@)
            },
        forall|i: int, j: int|
            0 <= i < p.steps@.len() && 0 <= j < p.steps@.len() && (#[trigger] p.steps@[i]).action
                is Setpoint && (#[trigger] p.steps@[j]).action is Setpoint ==> {
                let a = step_signature(p.steps@[i]);
                let b = step_signature(p.steps@[j]);
                &&& a.name@ == b.name@
                &&& a.service@ == b.service@
                &&& a.method@ == b.method@
                &&& a.kind == b.kind
                &&& a.request_type@ == b.request_type@
                &&& a.reply_type@ == b.reply_type@
            },
        p.steps@[0].action is Setpoint,
        p.steps@[2].action is Setpoint,
{
}

/// The motion capture records the variant's motion state port and the safety
/// capture its safety state port.
pub proof fn lemma_captures_record_state_ports(p: ScenarioPlan)
    requires
        is_plan(p),
    ensures
        forall|c: int| 0 <= c < p.captures@.len() ==> (#[trigger] p.captures@[c]).signature.kind == PortKind::State,
        forall|c: int|
            0 <= c < p.captures@.len() && (#[trigger] p.captures@[c]).name@ == "motion"@ ==> {
                let sig = p.captures@[c].signature;
                (sig.name@ == "motion/state"@ && sig.service@ == "phoxal.motion"@ && sig.method@ == "State"@
                    && sig.kind == PortKind::State && sig.request_type@ == "State"@
                    && sig.reply_type@ == "State"@)
            },
        forall|c: int|
            0 <= c < p.captures@.len() && (#[trigger] p.captures@[c]).name@ == "safety"@ ==> {
                let sig = p.captures@[c].signature;
                (sig.name@ == "safety/state"@ && sig.service@ == "phoxal.safety"@ && sig.method@ == "State"@
                    && sig.kind == PortKind::State && sig.request_type@ == "SafetyState"@
                    && sig.reply_type@ == "SafetyState"@)
            },
{
    reveal_strlit("motion");
    reveal_strlit("safety");
    assert(p.captures@[0].name@[0] != "safety"@[0]);
    assert(p.captures@[1].name@[0] != "motion"@[0]);
}

} // verus!
