//! The rover enters motion with a finite authority window: each forward intent
//! is leased until the 4 ms authority deadline. Nothing is authored at or after
//! the deadline: the supervisor expires the authority and the Motion service
//! stops the rover on its own. The verdict requires the run to end stopped,
//! with the safety capture drained.

use vstd::prelude::*;

use crate::payload::{Payload, intent_is, is_stop_intent, motion_intent};
use crate::plan::{
    lemma_step_label_injective, leased_setpoint_step_is, step_label, step_payload, step_signature,
    Action, Capture, ScenarioPlan, Step, Validity, QUANTUM_MICROS,
};
use crate::port::{
    PortKind, is_motion_manual, is_motion_status, is_safety_status, manual_setpoint_signature,
    motion_status_signature, safety_status_signature,
};
use crate::run::{
    all_present, check_run, check_stopped, ended_stopped, holds_name, lemma_names_contains,
    lemma_zero_bits_magnitude, names, run_accepted, run_rejected_with, stop_rejected_with,
    ScenarioRun, VerifyError,
};

verus! {

/// Four transitions of the 2 ms quantum.
pub const DURATION_MICROS: u64 = 8_000;

/// The authority deadline: the supervisor expires the authority once 4 ms
/// pass, before the final cut.
pub const AUTHORITY_DEADLINE_MICROS: u64 = 4_000;

/// The rover enters motion with a finite authority window and must end the
/// run stopped after the supervisor expires it.
#[derive(Debug, Default)]
pub struct ExpiryStop;

/// The labels of the steps the scenario expects outcomes for.
pub open spec fn step_labels() -> Seq<Seq<char>> {
    seq!["s00000000"@, "s00000001"@]
}

/// The lease, in milliseconds, that keeps an intent set at `boundary` in
/// effect exactly until the authority deadline.
pub open spec fn lease_until_deadline_ms(boundary: int) -> int {
    (AUTHORITY_DEADLINE_MICROS - boundary * QUANTUM_MICROS) / 1000
}

/// The captures the scenario expects.
pub open spec fn capture_names() -> Seq<Seq<char>> {
    seq!["motion/status"@, "safety/status"@]
}

/// `p` is the scenario's plan, field by field.
pub open spec fn is_plan(p: ScenarioPlan) -> bool {
    let owner = "scenarios/ExpiryStop"@;
    let s = p.steps@;
    &&& p.scene@ == "simulation/scene.xml"@
    &&& p.duration_micros == DURATION_MICROS
    &&& s.len() == 2
    &&& leased_setpoint_step_is(s[0], "s00000000"@, 0, "motion"@, 4)
    &&& is_motion_manual(step_signature(s[0]))
    &&& intent_is(step_payload(s[0]), owner, 300, 0)
    &&& leased_setpoint_step_is(s[1], "s00000001"@, 1, "motion"@, 2)
    &&& is_motion_manual(step_signature(s[1]))
    &&& intent_is(step_payload(s[1]), owner, 300, 0)
    &&& p.captures@.len() == 2
    &&& p.captures@[0].name@ == "motion/status"@
    &&& is_motion_status(p.captures@[0].signature)
    &&& p.captures@[1].name@ == "safety/status"@
    &&& is_safety_status(p.captures@[1].signature)
}

/// The outcome of `verify`: `Ok` exactly when the run is accepted with the
/// capture drain required and ended stopped; else the first failure, with the
/// two stop conditions tested last.
pub open spec fn verdict(run: ScenarioRun, r: Result<(), VerifyError>) -> bool {
    &&& r is Ok <==> run_accepted(run, step_labels(), capture_names(), true) && ended_stopped(run)
    &&& r matches Err(e) ==> if run_accepted(run, step_labels(), capture_names(), true) {
        stop_rejected_with(run, e)
    } else {
        run_rejected_with(run, step_labels(), capture_names(), true, e)
    }
}

impl ExpiryStop {
    /// The scenario's plan: forward at 0.3 m/s at the first two boundaries,
    /// each intent leased until the 4 ms authority deadline (4 ms from
    /// boundary 0, 2 ms from boundary 1), and nothing authored from the
    /// deadline on.
    pub fn plan(&self) -> (p: ScenarioPlan)
        ensures
            is_plan(p),
    {
        let owner = "scenarios/ExpiryStop";
        let mut steps: Vec<Step> = Vec::new();
        steps.push(
            Step::new(
                "s00000000",
                0,
                Action::setpoint(
                    "motion",
                    manual_setpoint_signature(),
                    motion_intent(owner, 300, 0),
                    Validity::Lease { valid_for_ms: 4 },
                ),
            ),
        );
        steps.push(
            Step::new(
                "s00000001",
                1,
                Action::setpoint(
                    "motion",
                    manual_setpoint_signature(),
                    motion_intent(owner, 300, 0),
                    Validity::Lease { valid_for_ms: 2 },
                ),
            ),
        );
        let mut captures: Vec<Capture> = Vec::new();
        captures.push(Capture::state("motion/status", motion_status_signature()));
        captures.push(Capture::state("safety/status", safety_status_signature()));
        ScenarioPlan {
            scene: "simulation/scene.xml".to_owned(),
            duration_micros: DURATION_MICROS,
            steps,
            captures,
        }
    }

    /// Accepts a run that is sealed and passed, has an outcome for both steps
    /// and both status captures, whose terminal evidence shows a recorded
    /// execution identity, a nonzero quantum, completed transitions, the final observation cut, the
    /// final capture drain and a clean cleanup, and whose last Motion status
    /// has zero velocity and last Safety status reports a stop; else reports
    /// the first check that fails.
    pub fn verify(&self, run: &ScenarioRun) -> (r: Result<(), VerifyError>)
        ensures
            verdict(*run, r),
    {
        let mut steps: Vec<String> = Vec::new();
        steps.push("s00000000".to_owned());
        steps.push("s00000001".to_owned());
        let mut captures: Vec<String> = Vec::new();
        captures.push("motion/status".to_owned());
        captures.push("safety/status".to_owned());
        assert(names(steps@) =~= step_labels());
        assert(names(captures@) =~= capture_names());
        match check_run(run, &steps, &captures, true) {
            Err(e) => Err(e),
            Ok(()) => check_stopped(run),
        }
    }
}

/// The plan is well formed at the rover's quantum, and every step carries the
/// conventional label of its boundary.
pub proof fn lemma_plan_well_formed(p: ScenarioPlan)
    requires
        is_plan(p),
    ensures
        p.well_formed(QUANTUM_MICROS as int),
        p.labels_follow_boundaries(),
{
    reveal_strlit("s00000000");
    reveal_strlit("s00000001");
    reveal_strlit("motion");
    reveal_strlit("motion/status");
    reveal_strlit("safety/status");
    let s = p.steps@;
    assert(s[0].label@ == step_label(0));
    assert(s[1].label@ == step_label(1));
    assert forall|i: int, j: int| 0 <= i < j < s.len() implies (#[trigger] s[i]).label@
        != (#[trigger] s[j]).label@ by {
        lemma_step_label_injective(i, j);
    }
    assert(p.captures@[0].name@ != p.captures@[1].name@) by {
        assert(p.captures@[0].name@[0] != p.captures@[1].name@[0]);
    }
}

/// The verdict checks exactly the plan's steps and captures.
pub proof fn lemma_verify_covers_plan(p: ScenarioPlan)
    requires
        is_plan(p),
    ensures
        step_labels() == p.step_labels(),
        capture_names() == p.capture_names(),
{
    assert(step_labels() =~= p.step_labels());
    assert(capture_names() =~= p.capture_names());
}

/// Nothing is authored at or after the authority deadline, and no step
/// authors a stop: every step is a setpoint landing before the deadline with
/// an intent that moves the rover, leased exactly until the deadline. The stop
/// is left to the Motion service once the authority expires.
pub proof fn lemma_plan_authors_nothing_from_deadline(p: ScenarioPlan)
    requires
        is_plan(p),
    ensures
        forall|i: int|
            0 <= i < p.steps@.len() ==> {
                &&& (#[trigger] p.steps@[i]).action is Setpoint
                &&& p.steps@[i].boundary * QUANTUM_MICROS < AUTHORITY_DEADLINE_MICROS
                &&& !is_stop_intent(step_payload(p.steps@[i]))
                &&& p.steps@[i].action->Setpoint_validity == (Validity::Lease {
                    valid_for_ms: lease_until_deadline_ms(p.steps@[i].boundary as int) as u64,
                })
            },
{
}

/// Each motion intent goes as a setpoint to Motion/Manual, and every step
/// carries one, commanding forward motion without turning.
pub proof fn lemma_requests_reach_their_ports(p: ScenarioPlan)
    requires
        is_plan(p),
    ensures
        forall|i: int|
            0 <= i < p.steps@.len() ==> {
                let sig = step_signature(#[trigger] p.steps@[i]);
                &&& p.steps@[i].action is Setpoint
                &&& (sig.name@ == "motion/manual"@ && sig.service@ == "phoxal.motion.v1.Motion"@ && sig.method@ == "Manual"@
                    && sig.kind == PortKind::Setpoint && sig.request_type@ == "phoxal.motion.v1.MotionIntent"@
                    && sig.reply_type@ == "phoxal.motion.v1.MotionIntent"@)
                &&& step_payload(p.steps@[i]) matches Payload::Intent(m)
                &&& m.linear_x_mm_per_s > 0
                &&& m.angular_z_mrad_per_s == 0
            },
{
}

/// Every capture records the state port it is named after, with the empty
/// request of a state port: the Motion status capture records the Motion
/// service's status, the Safety status capture the Safety service's.
pub proof fn lemma_captures_named_after_ports(p: ScenarioPlan)
    requires
        is_plan(p),
    ensures
        forall|c: int|
            0 <= c < p.captures@.len() ==> {
                let sig = (#[trigger] p.captures@[c]).signature;
                &&& p.captures@[c].name@ == sig.name@
                &&& sig.kind == PortKind::State
                &&& sig.request_type@ == "google.protobuf.Empty"@
            },
        forall|c: int|
            0 <= c < p.captures@.len() && (#[trigger] p.captures@[c]).name@ == "motion/status"@
                ==> p.captures@[c].signature.service@ == "phoxal.motion.v1.Motion"@
                && p.captures@[c].signature.reply_type@ == "phoxal.motion.v1.MotionStatus"@,
        forall|c: int|
            0 <= c < p.captures@.len() && (#[trigger] p.captures@[c]).name@ == "safety/status"@
                ==> p.captures@[c].signature.service@ == "phoxal.safety.v1.Safety"@
                && p.captures@[c].signature.reply_type@ == "phoxal.safety.v1.SafetyStatus"@,
{
    reveal_strlit("motion/status");
    reveal_strlit("safety/status");
    assert(p.captures@[0].name@[0] != "safety/status"@[0]);
    assert(p.captures@[1].name@[0] != "motion/status"@[0]);
}

/// What the verdict decides, over the run's own fields: an unsealed run is
/// rejected as unsealed; an accepted run is sealed and passed, has outcomes
/// for both planned steps and both status captures, complete terminal
/// evidence with the capture drain, a last Motion status with both
/// velocities zero (positive or negative zero only) and a last Safety status
/// that reports a stop; and a run that meets everything but has a moving
/// last Motion status is rejected as not stopped.
pub proof fn lemma_verify_decides(run: ScenarioRun, r: Result<(), VerifyError>)
    requires
        verdict(run, r),
    ensures
        !run.sealed ==> r matches Err(VerifyError::NotSealed),
        r is Ok ==> {
            &&& run.sealed
            &&& run.passed
            &&& holds_name(run.outcomes@, "s00000000"@)
            &&& holds_name(run.outcomes@, "s00000001"@)
            &&& holds_name(run.captures@, "motion/status"@)
            &&& holds_name(run.captures@, "safety/status"@)
            &&& run.terminal_evidence matches Some(e)
            &&& e.execution_identity@.len() > 0
            &&& e.quantum_ns != 0
            &&& e.completed_transitions != 0
            &&& e.final_observation_cut
            &&& e.final_capture_drain
            &&& e.cleanup_ok
            &&& run.final_motion matches Some(m)
            &&& m.linear_x_mps_bits & 0x7FFF_FFFF_FFFF_FFFFu64 == 0
            &&& m.angular_z_radps_bits & 0x7FFF_FFFF_FFFF_FFFFu64 == 0
            &&& run.final_safety_stopped == Some(true)
        },
        ({
            &&& run_accepted(run, step_labels(), capture_names(), true)
            &&& run.final_motion matches Some(m)
            &&& m.linear_x_mps_bits & 0x7FFF_FFFF_FFFF_FFFFu64 != 0
                || m.angular_z_radps_bits & 0x7FFF_FFFF_FFFF_FFFFu64 != 0
        }) ==> r matches Err(VerifyError::MotionNotStopped),
{
    assert forall|x: Seq<char>| #[trigger] names(run.outcomes@).contains(x) <==> holds_name(
        run.outcomes@,
        x,
    ) by {
        lemma_names_contains(run.outcomes@, x);
    }
    assert forall|x: Seq<char>| #[trigger] names(run.captures@).contains(x) <==> holds_name(
        run.captures@,
        x,
    ) by {
        lemma_names_contains(run.captures@, x);
    }
    if run.sealed && run.passed && all_present(names(run.outcomes@), step_labels()) {
        assert(names(run.outcomes@).contains(step_labels()[0]));
        assert(names(run.outcomes@).contains(step_labels()[1]));
    }
    if run.sealed && run.passed && all_present(names(run.captures@), capture_names()) {
        assert(names(run.captures@).contains(capture_names()[0]));
        assert(names(run.captures@).contains(capture_names()[1]));
    }
    if let Some(m) = run.final_motion {
        lemma_zero_bits_magnitude(m.linear_x_mps_bits);
        lemma_zero_bits_magnitude(m.angular_z_radps_bits);
    }
}

} // verus!
