//! A scenario whose verdict rejects every run, so that the host must surface
//! an author-side rejection as a non-pass outcome.

use vstd::prelude::*;

use crate::payload::{intent_is, is_stop_intent, motion_intent};
use crate::plan::{
    ends_with_stop, setpoint_step_is, step_label, step_payload, step_signature, Action, Capture,
    ScenarioPlan, Step, Validity, QUANTUM_MICROS,
};
use crate::port::{PortKind, is_motion_manual, is_motion_status, manual_setpoint_signature, motion_status_signature};
use crate::run::{ScenarioRun, VerifyError};

verus! {

/// One transition of the 2 ms quantum.
pub const DURATION_MICROS: u64 = 2_000;

/// Publishes one stop intent and then rejects the run.
#[derive(Debug, Default)]
pub struct IntentionallyFailing;

/// `p` is the scenario's plan, field by field.
pub open spec fn is_plan(p: ScenarioPlan) -> bool {
    let s = p.steps@;
    &&& p.scene@ == "simulation/scene.xml"@
    &&& p.duration_micros == DURATION_MICROS
    &&& s.len() == 1
    &&& setpoint_step_is(s[0], "s00000000"@, 0, "motion"@)
    &&& is_motion_manual(step_signature(s[0]))
    &&& intent_is(step_payload(s[0]), "scenarios/IntentionallyFailing"@, 0, 0)
    &&& p.captures@.len() == 1
    &&& p.captures@[0].name@ == "motion/status"@
    &&& is_motion_status(p.captures@[0].signature)
}

impl IntentionallyFailing {
    /// The scenario's plan: a single zero-velocity intent at boundary 0 and
    /// the Motion status captured.
    pub fn plan(&self) -> (p: ScenarioPlan)
        ensures
            is_plan(p),
    {
        let payload = motion_intent("scenarios/IntentionallyFailing", 0, 0);
        let mut steps: Vec<Step> = Vec::new();
        steps.push(
            Step::new(
                "s00000000",
                0,
                Action::setpoint("motion", manual_setpoint_signature(), payload, Validity::Permanent),
            ),
        );
        let mut captures: Vec<Capture> = Vec::new();
        captures.push(Capture::state("motion/status", motion_status_signature()));
        ScenarioPlan {
            scene: "simulation/scene.xml".to_owned(),
            duration_micros: DURATION_MICROS,
            steps,
            captures,
        }
    }

    /// Rejects every run.
    pub fn verify(&self, run: &ScenarioRun) -> (r: Result<(), VerifyError>)
        ensures
            r matches Err(VerifyError::AlwaysRejected),
    {
        Err(VerifyError::AlwaysRejected)
    }
}

/// The plan is well formed at the rover's quantum, with its one
/// step at the one transition, and it ends with the rover stopped.
pub proof fn lemma_plan_well_formed(p: ScenarioPlan)
    requires
        is_plan(p),
    ensures
        p.well_formed(QUANTUM_MICROS as int),
        p.one_step_per_transition(QUANTUM_MICROS as int),
        ends_with_stop(p),
{
    reveal_strlit("s00000000");
    reveal_strlit("motion");
    reveal_strlit("motion/status");
    assert(p.steps@[0].label@ == step_label(0));
    assert(is_stop_intent(step_payload(p.steps@[0])));
}

/// The one step sets a stop intent on Motion/Manual.
pub proof fn lemma_requests_reach_their_ports(p: ScenarioPlan)
    requires
        is_plan(p),
    ensures
        forall|i: int|
            0 <= i < p.steps@.len() ==> {
                let sig = step_signature(#[trigger] p.steps@[i]);
                &&& p.steps@[i].action is Setpoint
                &&& (sig.name@ == "motion/manual"@ && sig.service@ == "phoxal.motion.v1.Motion"@ && sig.method@ == "Manual"@
                    && sig.kind == PortKind::Setpoint && sig.request_type@ == "phoxal.motion.v1.MotionIntent"@
                    && sig.reply_type@ == "phoxal.motion.v1.MotionIntent"@)
                &&& is_stop_intent(step_payload(p.steps@[i]))
            },
{
}

/// Every capture records the state port it is named after, with the empty
/// request of a state port: the Motion status capture records the Motion
/// service's status, the Safety status capture the Safety service's.
pub proof fn lemma_captures_named_after_ports(p: ScenarioPlan)
    requires
        is_plan(p),
    ensures
        forall|c: int|
            0 <= c < p.captures@.len() ==> {
                let sig = (#[trigger] p.captures@[c]).signature;
                &&& p.captures@[c].name@ == sig.name@
                &&& sig.kind == PortKind::State
                &&& sig.request_type@ == "google.protobuf.Empty"@
            },
        forall|c: int|
            0 <= c < p.captures@.len() && (#[trigger] p.captures@[c]).name@ == "motion/status"@
                ==> p.captures@[c].signature.service@ == "phoxal.motion.v1.Motion"@
                && p.captures@[c].signature.reply_type@ == "phoxal.motion.v1.MotionStatus"@,
{
    reveal_strlit("motion/status");
    reveal_strlit("safety/status");
}

} // verus!
