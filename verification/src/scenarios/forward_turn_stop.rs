//! Arm, drive forward, turn, stop and disarm the rover over six transitions.

use vstd::prelude::*;

use crate::payload::{Payload, is_stop_intent, arm_is, arm_request, disarm_request, intent_is, motion_intent};
use crate::plan::{
    command_label, command_step_is, ends_with_stop, lemma_step_label_injective, setpoint_step_is, step_label, QUANTUM_MICROS, step_payload, step_signature, Action, Capture, ScenarioPlan,
    Step, Validity,
};
use crate::port::{
    PortKind, emergency_signature, is_motion_emergency, is_motion_manual, is_motion_status,
    is_safety_status, manual_setpoint_signature, motion_status_signature, safety_status_signature,
};
use crate::run::{
    check_outcome, check_run, holds_name, lemma_check_run_decides, names, ScenarioRun, VerifyError,
};

verus! {

/// Six transitions of the 2 ms quantum: arm, forward, forward, turn, stop, disarm.
pub const DURATION_MICROS: u64 = 12_000;

/// Drives the rover's arm → forward → turn → stop → disarm sequence against
/// the rover's authored scene.
#[derive(Debug, Default)]
pub struct ForwardTurnStop;

/// The labels of the steps the scenario expects outcomes for.
pub open spec fn step_labels() -> Seq<Seq<char>> {
    seq!["s00000000"@, "s00000001"@, "s00000002"@, "s00000003"@, "s00000004"@, "s00000005"@]
}

/// The captures the scenario expects.
pub open spec fn capture_names() -> Seq<Seq<char>> {
    seq!["motion/status"@, "safety/status"@]
}

/// `p` is the scenario's plan, field by field.
pub open spec fn is_plan(p: ScenarioPlan) -> bool {
    let owner = "scenarios/ForwardTurnStop"@;
    let s = p.steps@;
    &&& p.scene@ == "simulation/scene.xml"@
    &&& p.duration_micros == DURATION_MICROS
    &&& s.len() == 6
    &&& command_step_is(s[0], "s00000000"@, 0, "motion"@, "arm-rover"@, DURATION_MICROS as int, 1_000_000)
    &&& is_motion_emergency(step_signature(s[0]))
    &&& arm_is(step_payload(s[0]), owner)
    &&& setpoint_step_is(s[1], "s00000001"@, 1, "motion"@)
    &&& is_motion_manual(step_signature(s[1]))
    &&& intent_is(step_payload(s[1]), owner, 500, 0)
    &&& setpoint_step_is(s[2], "s00000002"@, 2, "motion"@)
    &&& is_motion_manual(step_signature(s[2]))
    &&& intent_is(step_payload(s[2]), owner, 500, 0)
    &&& setpoint_step_is(s[3], "s00000003"@, 3, "motion"@)
    &&& is_motion_manual(step_signature(s[3]))
    &&& intent_is(step_payload(s[3]), owner, 0, 500)
    &&& setpoint_step_is(s[4], "s00000004"@, 4, "motion"@)
    &&& is_motion_manual(step_signature(s[4]))
    &&& intent_is(step_payload(s[4]), owner, 0, 0)
    &&& command_step_is(s[5], "s00000005"@, 5, "motion"@, "disarm-rover"@, DURATION_MICROS as int, 1_000_000)
    &&& is_motion_emergency(step_signature(s[5]))
    &&& step_payload(s[5]) is Disarm
    &&& p.captures@.len() == 2
    &&& p.captures@[0].name@ == "motion/status"@
    &&& is_motion_status(p.captures@[0].signature)
    &&& p.captures@[1].name@ == "safety/status"@
    &&& is_safety_status(p.captures@[1].signature)
}

impl ForwardTurnStop {
    /// The scenario's plan.
    pub fn plan(&self) -> (p: ScenarioPlan)
        ensures
            is_plan(p),
    {
        let owner = "scenarios/ForwardTurnStop";
        let mut steps: Vec<Step> = Vec::new();
        steps.push(
            Step::new(
                "s00000000",
                0,
                Action::command(
                    "motion",
                    emergency_signature(),
                    arm_request(owner),
                    "arm-rover",
                    DURATION_MICROS,
                    1_000_000,
                ),
            ),
        );
        steps.push(
            Step::new(
                "s00000001",
                1,
                Action::setpoint(
                    "motion",
                    manual_setpoint_signature(),
                    motion_intent(owner, 500, 0),
                    Validity::Permanent,
                ),
            ),
        );
        steps.push(
            Step::new(
                "s00000002",
                2,
                Action::setpoint(
                    "motion",
                    manual_setpoint_signature(),
                    motion_intent(owner, 500, 0),
                    Validity::Permanent,
                ),
            ),
        );
        steps.push(
            Step::new(
                "s00000003",
                3,
                Action::setpoint(
                    "motion",
                    manual_setpoint_signature(),
                    motion_intent(owner, 0, 500),
                    Validity::Permanent,
                ),
            ),
        );
        steps.push(
            Step::new(
                "s00000004",
                4,
                Action::setpoint(
                    "motion",
                    manual_setpoint_signature(),
                    motion_intent(owner, 0, 0),
                    Validity::Permanent,
                ),
            ),
        );
        steps.push(
            Step::new(
                "s00000005",
                5,
                Action::command(
                    "motion",
                    emergency_signature(),
                    disarm_request(),
                    "disarm-rover",
                    DURATION_MICROS,
                    1_000_000,
                ),
            ),
        );
        let mut captures: Vec<Capture> = Vec::new();
        captures.push(Capture::state("motion/status", motion_status_signature()));
        captures.push(Capture::state("safety/status", safety_status_signature()));
        ScenarioPlan {
            scene: "simulation/scene.xml".to_owned(),
            duration_micros: DURATION_MICROS,
            steps,
            captures,
        }
    }

    /// Accepts a run that is sealed and passed, has an outcome for every step
    /// and both status captures, and whose terminal evidence shows a recorded
    /// execution identity, a nonzero quantum, completed transitions, the final observation cut, the final
    /// capture drain and a clean cleanup; else reports the first check that fails.
    pub fn verify(&self, run: &ScenarioRun) -> (r: Result<(), VerifyError>)
        ensures
            check_outcome(*run, step_labels(), capture_names(), true, r),
    {
        let mut steps: Vec<String> = Vec::new();
        steps.push("s00000000".to_owned());
        steps.push("s00000001".to_owned());
        steps.push("s00000002".to_owned());
        steps.push("s00000003".to_owned());
        steps.push("s00000004".to_owned());
        steps.push("s00000005".to_owned());
        let mut captures: Vec<String> = Vec::new();
        captures.push("motion/status".to_owned());
        captures.push("safety/status".to_owned());
        assert(names(steps@) =~= step_labels());
        assert(names(captures@) =~= capture_names());
        check_run(run, &steps, &captures, true)
    }
}

/// The plan is well formed at the rover's quantum, and it holds
/// one conventionally labelled step per transition.
pub proof fn lemma_plan_well_formed(p: ScenarioPlan)
    requires
        is_plan(p),
    ensures
        p.well_formed(QUANTUM_MICROS as int),
        p.one_step_per_transition(QUANTUM_MICROS as int),
{
    reveal_strlit("s00000000");
    reveal_strlit("s00000001");
    reveal_strlit("s00000002");
    reveal_strlit("s00000003");
    reveal_strlit("s00000004");
    reveal_strlit("s00000005");
    reveal_strlit("motion");
    reveal_strlit("arm-rover");
    reveal_strlit("disarm-rover");
    reveal_strlit("motion/status");
    reveal_strlit("safety/status");
    let s = p.steps@;
    assert(s[0].label@ == step_label(0));
    assert(s[1].label@ == step_label(1));
    assert(s[2].label@ == step_label(2));
    assert(s[3].label@ == step_label(3));
    assert(s[4].label@ == step_label(4));
    assert(s[5].label@ == step_label(5));
    assert forall|i: int, j: int| 0 <= i < j < s.len() implies (#[trigger] s[i]).label@
        != (#[trigger] s[j]).label@ by {
        lemma_step_label_injective(i, j);
    }
    assert(command_label(s[0].action) != command_label(s[5].action)) by {
        assert(command_label(s[0].action)->0.len() != command_label(s[5].action)->0.len());
    }
    assert(p.captures@[0].name@ != p.captures@[1].name@) by {
        assert(p.captures@[0].name@[0] != p.captures@[1].name@[0]);
    }
}

/// The verdict checks exactly the plan's steps and captures: a run is
/// accepted only with an outcome for every planned step and a record of
/// every planned capture.
pub proof fn lemma_verify_covers_plan(p: ScenarioPlan)
    requires
        is_plan(p),
    ensures
        step_labels() == p.step_labels(),
        capture_names() == p.capture_names(),
{
    assert(step_labels() =~= p.step_labels());
    assert(capture_names() =~= p.capture_names());
}

/// Motion is armed by the first step and disarmed by the last; every step in
/// between sets an intent, and the last intent stops the rover.
pub proof fn lemma_plan_arms_drives_and_stops(p: ScenarioPlan)
    requires
        is_plan(p),
    ensures
        step_payload(p.steps@[0]) is Arm,
        step_payload(p.steps@.last()) is Disarm,
        forall|i: int| 0 < i < p.steps@.len() - 1 ==> step_payload(#[trigger] p.steps@[i]) is Intent,
        ends_with_stop(p),
{
    assert(is_stop_intent(step_payload(p.steps@[4])));
}

/// Each request reaches the port that carries it: the arm and disarm requests
/// go as commands to Motion/Emergency, every motion intent as a setpoint to
/// Motion/Manual, and every step carries one of these requests.
pub proof fn lemma_requests_reach_their_ports(p: ScenarioPlan)
    requires
        is_plan(p),
    ensures
        forall|i: int|
            0 <= i < p.steps@.len() ==> {
                let sig = step_signature(#[trigger] p.steps@[i]);
                let request = step_payload(p.steps@[i]);
                &&& request is Arm || request is Disarm || request is Intent
                &&& (request is Arm || request is Disarm) ==> p.steps@[i].action is Command
                    && (sig.name@ == "motion/emergency"@ && sig.service@ == "phoxal.motion.v1.Motion"@ && sig.method@ == "Emergency"@
                    && sig.kind == PortKind::Commands && sig.request_type@ == "phoxal.motion.v1.ApplyEmergencyRequest"@
                    && sig.reply_type@ == "phoxal.motion.v1.ApplyEmergencyResponse"@)
                &&& request is Intent ==> p.steps@[i].action is Setpoint
                    && (sig.name@ == "motion/manual"@ && sig.service@ == "phoxal.motion.v1.Motion"@ && sig.method@ == "Manual"@
                    && sig.kind == PortKind::Setpoint && sig.request_type@ == "phoxal.motion.v1.MotionIntent"@
                    && sig.reply_type@ == "phoxal.motion.v1.MotionIntent"@)
            },
{
}

/// The intents drive forward, then turn in place, then stop: the first two
/// move forward without turning, the third turns counter-clockwise without
/// moving forward, and the fourth commands zero velocity.
pub proof fn lemma_intents_forward_turn_stop(p: ScenarioPlan)
    requires
        is_plan(p),
    ensures
        forall|i: int|
            1 <= i <= 2 ==> {
                &&& #[trigger] step_payload(p.steps@[i]) matches Payload::Intent(m)
                &&& m.linear_x_mm_per_s > 0
                &&& m.angular_z_mrad_per_s == 0
            },
        step_payload(p.steps@[3]) matches Payload::Intent(m) && m.linear_x_mm_per_s == 0
            && m.angular_z_mrad_per_s > 0,
        step_payload(p.steps@[4]) matches Payload::Intent(m) && m.linear_x_mm_per_s == 0
            && m.angular_z_mrad_per_s == 0,
{
}

/// Every capture records the state port it is named after, with the empty
/// request of a state port: the Motion status capture records the Motion
/// service's status, the Safety status capture the Safety service's.
pub proof fn lemma_captures_named_after_ports(p: ScenarioPlan)
    requires
        is_plan(p),
    ensures
        forall|c: int|
            0 <= c < p.captures@.len() ==> {
                let sig = (#[trigger] p.captures@[c]).signature;
                &&& p.captures@[c].name@ == sig.name@
                &&& sig.kind == PortKind::State
                &&& sig.request_type@ == "google.protobuf.Empty"@
            },
        forall|c: int|
            0 <= c < p.captures@.len() && (#[trigger] p.captures@[c]).name@ == "motion/status"@
                ==> p.captures@[c].signature.service@ == "phoxal.motion.v1.Motion"@
                && p.captures@[c].signature.reply_type@ == "phoxal.motion.v1.MotionStatus"@,
        forall|c: int|
            0 <= c < p.captures@.len() && (#[trigger] p.captures@[c]).name@ == "safety/status"@
                ==> p.captures@[c].signature.service@ == "phoxal.safety.v1.Safety"@
                && p.captures@[c].signature.reply_type@ == "phoxal.safety.v1.SafetyStatus"@,
{
    reveal_strlit("motion/status");
    reveal_strlit("safety/status");
    assert(p.captures@[0].name@[0] != "safety/status"@[0]);
    assert(p.captures@[1].name@[0] != "motion/status"@[0]);
}

/// What the verdict decides, over the run's own fields: an unsealed run is
/// rejected as unsealed, whatever else holds; and a run is accepted exactly
/// when it is sealed and passed, has an outcome at each of the six boundaries
/// under its conventional label, has both status captures, and its terminal
/// evidence carries an identity, a nonzero quantum, completed transitions,
/// the final observation cut, the final capture drain and a clean cleanup.
pub proof fn lemma_verify_decides(run: ScenarioRun, r: Result<(), VerifyError>)
    requires
        check_outcome(run, step_labels(), capture_names(), true, r),
    ensures
        !run.sealed ==> r matches Err(VerifyError::NotSealed),
        r is Ok <==> {
            &&& run.sealed
            &&& run.passed
            &&& forall|b: int| 0 <= b < 6 ==> holds_name(run.outcomes@, #[trigger] step_label(b))
            &&& holds_name(run.captures@, "motion/status"@)
            &&& holds_name(run.captures@, "safety/status"@)
            &&& run.terminal_evidence matches Some(e)
            &&& e.execution_identity@.len() > 0
            &&& e.quantum_ns != 0
            &&& e.completed_transitions != 0
            &&& e.final_observation_cut
            &&& e.final_capture_drain
            &&& e.cleanup_ok
        },
{
    lemma_check_run_decides(run, step_labels(), capture_names(), true, r);
    reveal_strlit("s00000000");
    reveal_strlit("s00000001");
    reveal_strlit("s00000002");
    reveal_strlit("s00000003");
    reveal_strlit("s00000004");
    reveal_strlit("s00000005");
    assert(step_labels()[0] == step_label(0));
    assert(step_labels()[1] == step_label(1));
    assert(step_labels()[2] == step_label(2));
    assert(step_labels()[3] == step_label(3));
    assert(step_labels()[4] == step_label(4));
    assert(step_labels()[5] == step_label(5));
    let all_steps = forall|i: int|
        0 <= i < step_labels().len() ==> holds_name(run.outcomes@, #[trigger] step_labels()[i]);
    let all_bounds = forall|b: int| 0 <= b < 6 ==> holds_name(run.outcomes@, #[trigger] step_label(b));
    assert(all_steps <==> all_bounds) by {
        if all_steps {
            assert forall|b: int| 0 <= b < 6 implies holds_name(run.outcomes@, #[trigger] step_label(b)) by {
                assert(holds_name(run.outcomes@, step_labels()[b]));
            }
        }
        if all_bounds {
            assert forall|i: int| 0 <= i < step_labels().len() implies holds_name(run.outcomes@, #[trigger] step_labels()[i]) by {
                assert(holds_name(run.outcomes@, step_label(i)));
            }
        }
    }
    let all_caps = forall|i: int|
        0 <= i < capture_names().len() ==> holds_name(run.captures@, #[trigger] capture_names()[i]);
    assert(all_caps <==> (holds_name(run.captures@, "motion/status"@) && holds_name(run.captures@, "safety/status"@))) by {
        if holds_name(run.captures@, "motion/status"@) && holds_name(run.captures@, "safety/status"@) {
            assert forall|i: int| 0 <= i < capture_names().len() implies holds_name(run.captures@, #[trigger] capture_names()[i]) by {
                if i == 0 {} else {}
            }
        }
        if all_caps {
            assert(holds_name(run.captures@, capture_names()[0]));
            assert(holds_name(run.captures@, capture_names()[1]));
        }
    }
}

} // verus!
