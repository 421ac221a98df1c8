//! The facts of a finished run that a scenario reads, and the acceptance rule
//! the rover's scenarios apply to them.

use vstd::prelude::*;

verus! {

/// Terminal evidence that the execution lifecycle recorded for a run.
#[derive(Clone, Debug)]
pub struct TerminalEvidence {
    /// Identity of the execution that produced the evidence, as the lifecycle
    /// recorded it; empty when the lifecycle recorded none.
    pub execution_identity: String,
    /// Native quantum the simulator ran at, in nanoseconds.
    pub quantum_ns: u64,
    /// Number of native transitions the experiment completed.
    pub completed_transitions: u64,
    /// The final observation cut was observed.
    pub final_observation_cut: bool,
    /// The capture buffer was drained at the end.
    pub final_capture_drain: bool,
    /// Cleanup succeeded.
    pub cleanup_ok: bool,
}

/// The last Motion status a run observed: its body velocities, each as the
/// bit pattern of the IEEE-754 double on the wire.
#[derive(Clone, Copy, Debug, PartialEq, Eq, Structural)]
pub struct FinalMotion {
    /// Forward velocity along the body x axis, in metres per second.
    pub linear_x_mps_bits: u64,
    /// Counter-clockwise yaw rate around the body z axis, in radians per second.
    pub angular_z_radps_bits: u64,
}

/// What a scenario can read of a finished run.
pub struct ScenarioRun {
    /// The evidence surface was frozen by the case host.
    pub sealed: bool,
    /// The case host considers the run successful.
    pub passed: bool,
    /// Labels of the steps that have a recorded outcome.
    pub outcomes: Vec<String>,
    /// Names of the captures that were recorded.
    pub captures: Vec<String>,
    /// Terminal evidence, where the lifecycle recorded it.
    pub terminal_evidence: Option<TerminalEvidence>,
    /// The last value of the Motion status capture, where there is one.
    pub final_motion: Option<FinalMotion>,
    /// Whether the last value of the Safety status capture reports a stop,
    /// where there is one.
    pub final_safety_stopped: Option<bool>,
}

/// Why a scenario rejects a run.
pub enum VerifyError {
    /// The run was not sealed.
    NotSealed,
    /// The case host did not pass the run.
    NotPassed,
    /// The step labelled `label` has no recorded outcome.
    MissingOutcome { label: String },
    /// The capture `name` was not recorded.
    MissingCapture { name: String },
    /// No terminal evidence was recorded.
    MissingTerminalEvidence,
    /// The terminal evidence carries no execution identity.
    MissingExecutionIdentity,
    /// The recorded quantum is zero.
    ZeroQuantum,
    /// No transition was completed.
    ZeroCompletedTransitions,
    /// The final observation cut was not observed.
    NoFinalObservationCut,
    /// The capture buffer was not drained.
    NoFinalCaptureDrain,
    /// Cleanup did not succeed.
    CleanupFailed,
    /// The last Motion status commands a nonzero velocity, or there is none.
    MotionNotStopped,
    /// The last Safety status does not report a stop, or there is none.
    SafetyNotStopped,
    /// The scenario rejects every run.
    AlwaysRejected,
}

/// The character sequences of a list of strings.
pub open spec fn names(v: Seq<String>) -> Seq<Seq<char>> {
    v.map_values(|s: String| s@)
}

/// Every name in `want` is in `have`.
pub open spec fn all_present(have: Seq<Seq<char>>, want: Seq<Seq<char>>) -> bool {
    forall|j: int| 0 <= j < want.len() ==> have.contains(#[trigger] want[j])
}

/// `want[i]` is the first name of `want` that `have` lacks.
pub open spec fn first_absent(have: Seq<Seq<char>>, want: Seq<Seq<char>>, i: int) -> bool {
    &&& 0 <= i < want.len()
    &&& !have.contains(want[i])
    &&& forall|j: int| 0 <= j < i ==> have.contains(#[trigger] want[j])
}

/// The lifecycle finished the run: a recorded execution identity, a nonzero
/// quantum, at least one completed transition, the final observation cut, the
/// final capture drain where `require_drain` holds, and a clean cleanup. The
/// facts hold no reference identity, so that the recorded identity is the
/// supervisor's own is not decided here.
pub open spec fn evidence_complete(e: TerminalEvidence, require_drain: bool) -> bool {
    &&& e.execution_identity@.len() > 0
    &&& e.quantum_ns != 0
    &&& e.completed_transitions != 0
    &&& e.final_observation_cut
    &&& require_drain ==> e.final_capture_drain
    &&& e.cleanup_ok
}

/// The run is sealed and passed, every step in `steps` has an outcome, every
/// capture in `captures` was recorded, and the terminal evidence is complete.
pub open spec fn run_accepted(
    run: ScenarioRun,
    steps: Seq<Seq<char>>,
    captures: Seq<Seq<char>>,
    require_drain: bool,
) -> bool {
    &&& run.sealed
    &&& run.passed
    &&& all_present(names(run.outcomes@), steps)
    &&& all_present(names(run.captures@), captures)
    &&& run.terminal_evidence matches Some(e) && evidence_complete(e, require_drain)
}

/// `e` reports the first of the checks, in order, that the run fails.
pub open spec fn run_rejected_with(
    run: ScenarioRun,
    steps: Seq<Seq<char>>,
    captures: Seq<Seq<char>>,
    require_drain: bool,
    e: VerifyError,
) -> bool {
    if !run.sealed {
        e is NotSealed
    } else if !run.passed {
        e is NotPassed
    } else if !all_present(names(run.outcomes@), steps) {
        e matches VerifyError::MissingOutcome { label } && exists|i: int|
            first_absent(names(run.outcomes@), steps, i) && label@ == steps[i]
    } else if !all_present(names(run.captures@), captures) {
        e matches VerifyError::MissingCapture { name } && exists|i: int|
            first_absent(names(run.captures@), captures, i) && name@ == captures[i]
    } else {
        match run.terminal_evidence {
            None => e is MissingTerminalEvidence,
            Some(ev) => if ev.execution_identity@.len() == 0 {
                e is MissingExecutionIdentity
            } else if ev.quantum_ns == 0 {
                e is ZeroQuantum
            } else if ev.completed_transitions == 0 {
                e is ZeroCompletedTransitions
            } else if !ev.final_observation_cut {
                e is NoFinalObservationCut
            } else if require_drain && !ev.final_capture_drain {
                e is NoFinalCaptureDrain
            } else if !ev.cleanup_ok {
                e is CleanupFailed
            } else {
                false
            },
        }
    }
}

/// The outcome of checking `run` against `steps`, `captures` and `require_drain`:
/// accepted exactly when every check holds, else rejected with the first failure.
pub open spec fn check_outcome(
    run: ScenarioRun,
    steps: Seq<Seq<char>>,
    captures: Seq<Seq<char>>,
    require_drain: bool,
    r: Result<(), VerifyError>,
) -> bool {
    &&& r is Ok <==> run_accepted(run, steps, captures, require_drain)
    &&& r matches Err(e) ==> run_rejected_with(run, steps, captures, require_drain, e)
}

/// Whether `have` holds a string equal to `name`.
fn contains_name(have: &Vec<String>, name: &String) -> (r: bool)
    ensures
        r == names(have@).contains(name@),
{
    let mut i: usize = 0;
    while i < have.len()
        invariant
            i <= have@.len(),
            forall|k: int| 0 <= k < i ==> have@[k]@ != name@,
        decreases have@.len() - i,
    {
        if have[i] == *name {
            assert(names(have@)[i as int] == name@);
            return true;
        }
        i = i + 1;
    }
    assert forall|k: int| 0 <= k < names(have@).len() implies names(have@)[k] != name@ by {
        assert(names(have@)[k] == have@[k]@);
    }
    false
}

/// The index of the first string of `want` that `have` lacks, if any.
fn find_absent(have: &Vec<String>, want: &Vec<String>) -> (r: Option<usize>)
    ensures
        match r {
            None => all_present(names(have@), names(want@)),
            Some(i) => first_absent(names(have@), names(want@), i as int),
        },
{
    let mut i: usize = 0;
    while i < want.len()
        invariant
            i <= want@.len(),
            forall|j: int| 0 <= j < i ==> names(have@).contains(#[trigger] names(want@)[j]),
        decreases want@.len() - i,
    {
        let present = contains_name(have, &want[i]);
        assert(names(want@)[i as int] == want@[i as int]@);
        if !present {
            return Some(i);
        }
        i = i + 1;
    }
    None
}

/// Checks the run against the step labels and capture names a scenario
/// expects, in the order the rover's scenarios check them.
pub fn check_run(
    run: &ScenarioRun,
    steps: &Vec<String>,
    captures: &Vec<String>,
    require_drain: bool,
) -> (r: Result<(), VerifyError>)
    ensures
        check_outcome(*run, names(steps@), names(captures@), require_drain, r),
{
    if !run.sealed {
        return Err(VerifyError::NotSealed);
    }
    if !run.passed {
        return Err(VerifyError::NotPassed);
    }
    match find_absent(&run.outcomes, steps) {
        Some(i) => {
            assert(names(steps@)[i as int] == steps@[i as int]@);
            return Err(VerifyError::MissingOutcome { label: steps[i].clone() });
        },
        None => {},
    }
    match find_absent(&run.captures, captures) {
        Some(i) => {
            assert(names(captures@)[i as int] == captures@[i as int]@);
            return Err(VerifyError::MissingCapture { name: captures[i].clone() });
        },
        None => {},
    }
    match &run.terminal_evidence {
        None => Err(VerifyError::MissingTerminalEvidence),
        Some(e) => {
            if e.execution_identity.as_str().is_empty() {
                Err(VerifyError::MissingExecutionIdentity)
            } else if e.quantum_ns == 0 {
                Err(VerifyError::ZeroQuantum)
            } else if e.completed_transitions == 0 {
                Err(VerifyError::ZeroCompletedTransitions)
            } else if !e.final_observation_cut {
                Err(VerifyError::NoFinalObservationCut)
            } else if require_drain && !e.final_capture_drain {
                Err(VerifyError::NoFinalCaptureDrain)
            } else if !e.cleanup_ok {
                Err(VerifyError::CleanupFailed)
            } else {
                Ok(())
            }
        },
    }
}

/// `bits` is the bit pattern of a double equal to zero (positive or negative zero).
pub open spec fn is_zero_bits(bits: u64) -> bool {
    bits == 0 || bits == 0x8000_0000_0000_0000u64
}

/// The last Motion status commands zero linear and zero angular velocity.
pub open spec fn motion_stopped(run: ScenarioRun) -> bool {
    run.final_motion matches Some(m) && is_zero_bits(m.linear_x_mps_bits) && is_zero_bits(
        m.angular_z_radps_bits,
    )
}

/// The run ended stopped: the last Motion status has zero velocity and the
/// last Safety status reports a stop.
pub open spec fn ended_stopped(run: ScenarioRun) -> bool {
    motion_stopped(run) && run.final_safety_stopped == Some(true)
}

/// `e` reports the first of the two stop checks that the run fails.
pub open spec fn stop_rejected_with(run: ScenarioRun, e: VerifyError) -> bool {
    if !motion_stopped(run) {
        e is MotionNotStopped
    } else {
        e is SafetyNotStopped
    }
}

/// Whether a double's bit pattern is that of zero.
fn zero_bits(bits: u64) -> (r: bool)
    ensures
        r == is_zero_bits(bits),
{
    bits == 0 || bits == 0x8000_0000_0000_0000u64
}

/// Checks that the run ended stopped: zero velocity in the last Motion
/// status, then a stop in the last Safety status.
pub fn check_stopped(run: &ScenarioRun) -> (r: Result<(), VerifyError>)
    ensures
        r is Ok <==> ended_stopped(*run),
        r matches Err(e) ==> stop_rejected_with(*run, e),
{
    match run.final_motion {
        Some(m) => {
            if !(zero_bits(m.linear_x_mps_bits) && zero_bits(m.angular_z_radps_bits)) {
                return Err(VerifyError::MotionNotStopped);
            }
        },
        None => {
            return Err(VerifyError::MotionNotStopped);
        },
    }
    match run.final_safety_stopped {
        Some(true) => Ok(()),
        _ => Err(VerifyError::SafetyNotStopped),
    }
}

/// A double's bit pattern with the sign bit cleared is zero exactly when the
/// pattern is that of positive or negative zero.
pub proof fn lemma_zero_bits_magnitude(bits: u64)
    ensures
        is_zero_bits(bits) <==> bits & 0x7FFF_FFFF_FFFF_FFFFu64 == 0,
{
    assert((bits == 0 || bits == 0x8000_0000_0000_0000u64) <==> bits & 0x7FFF_FFFF_FFFF_FFFFu64
        == 0) by (bit_vector);
}

/// Some string of `v` reads `x`.
pub open spec fn holds_name(v: Seq<String>, x: Seq<char>) -> bool {
    exists|k: int| 0 <= k < v.len() && #[trigger] v[k]@ == x
}

/// `names(v)` holds `x` exactly when some string of `v` reads `x`.
pub proof fn lemma_names_contains(v: Seq<String>, x: Seq<char>)
    ensures
        names(v).contains(x) <==> holds_name(v, x),
{
    if names(v).contains(x) {
        let k = choose|k: int| 0 <= k < names(v).len() && names(v)[k] == x;
        assert(v[k]@ == x);
    }
    if holds_name(v, x) {
        let k = choose|k: int| 0 <= k < v.len() && #[trigger] v[k]@ == x;
        assert(names(v)[k] == x);
    }
}

/// What the acceptance rule decides, over the run's own fields: an unsealed
/// run is rejected as unsealed whatever else holds; a sealed run that did not
/// pass is rejected as not passed; a run is accepted exactly when it is sealed
/// and passed, every expected step label is among its outcomes, every expected
/// capture is among its captures, and its terminal evidence carries an
/// identity, a nonzero quantum, completed transitions, the final observation
/// cut, the final drain where required, and a clean cleanup; and a missing
/// outcome or capture is reported by an expected name that the run lacks.
pub proof fn lemma_check_run_decides(
    run: ScenarioRun,
    steps: Seq<Seq<char>>,
    captures: Seq<Seq<char>>,
    require_drain: bool,
    r: Result<(), VerifyError>,
)
    requires
        check_outcome(run, steps, captures, require_drain, r),
    ensures
        !run.sealed ==> r matches Err(VerifyError::NotSealed),
        run.sealed && !run.passed ==> r matches Err(VerifyError::NotPassed),
        r is Ok <==> {
            &&& run.sealed
            &&& run.passed
            &&& forall|i: int| 0 <= i < steps.len() ==> holds_name(run.outcomes@, #[trigger] steps[i])
            &&& forall|i: int|
                0 <= i < captures.len() ==> holds_name(run.captures@, #[trigger] captures[i])
            &&& run.terminal_evidence matches Some(e)
            &&& e.execution_identity@.len() > 0
            &&& e.quantum_ns != 0
            &&& e.completed_transitions != 0
            &&& e.final_observation_cut
            &&& require_drain ==> e.final_capture_drain
            &&& e.cleanup_ok
        },
        r matches Err(VerifyError::MissingOutcome { label }) ==> {
            &&& run.sealed && run.passed
            &&& steps.contains(label@)
            &&& forall|k: int| 0 <= k < run.outcomes@.len() ==> #[trigger] run.outcomes@[k]@ != label@
        },
        r matches Err(VerifyError::MissingCapture { name }) ==> {
            &&& run.sealed && run.passed
            &&& captures.contains(name@)
            &&& forall|k: int| 0 <= k < run.captures@.len() ==> #[trigger] run.captures@[k]@ != name@
        },
{
    assert forall|x: Seq<char>| #[trigger] names(run.outcomes@).contains(x) <==> holds_name(
        run.outcomes@,
        x,
    ) by {
        lemma_names_contains(run.outcomes@, x);
    }
    assert forall|x: Seq<char>| #[trigger] names(run.captures@).contains(x) <==> holds_name(
        run.captures@,
        x,
    ) by {
        lemma_names_contains(run.captures@, x);
    }
    assert(all_present(names(run.outcomes@), steps) <==> forall|i: int|
        0 <= i < steps.len() ==> holds_name(run.outcomes@, #[trigger] steps[i]));
    assert(all_present(names(run.captures@), captures) <==> forall|i: int|
        0 <= i < captures.len() ==> holds_name(run.captures@, #[trigger] captures[i]));
    if let Err(VerifyError::MissingOutcome { label }) = r {
        let i = choose|i: int| first_absent(names(run.outcomes@), steps, i) && label@ == steps[i];
        assert(steps[i] == label@);
    }
    if let Err(VerifyError::MissingCapture { name }) = r {
        let i = choose|i: int| first_absent(names(run.captures@), captures, i) && name@ == captures[i];
        assert(captures[i] == name@);
    }
}

/// What the stop check decides, over the run's own fields: the run ended
/// stopped exactly when its last Motion status has both velocities equal to
/// zero (the bit pattern with the sign cleared is zero, so positive and
/// negative zero both count and every other double, negative ones included,
/// does not) and its last Safety status reports a stop; a missing or moving
/// Motion status is reported as such, before the Safety status is looked at.
pub proof fn lemma_check_stopped_decides(run: ScenarioRun, r: Result<(), VerifyError>)
    requires
        r is Ok <==> ended_stopped(run),
        r matches Err(e) ==> stop_rejected_with(run, e),
    ensures
        r is Ok <==> {
            &&& run.final_motion matches Some(m)
            &&& m.linear_x_mps_bits & 0x7FFF_FFFF_FFFF_FFFFu64 == 0
            &&& m.angular_z_radps_bits & 0x7FFF_FFFF_FFFF_FFFFu64 == 0
            &&& run.final_safety_stopped == Some(true)
        },
        run.final_motion is None ==> r matches Err(VerifyError::MotionNotStopped),
        run.final_motion matches Some(m) && (m.linear_x_mps_bits & 0x7FFF_FFFF_FFFF_FFFFu64 != 0
            || m.angular_z_radps_bits & 0x7FFF_FFFF_FFFF_FFFFu64 != 0) ==> r matches Err(
            VerifyError::MotionNotStopped,
        ),
{
    if let Some(m) = run.final_motion {
        lemma_zero_bits_magnitude(m.linear_x_mps_bits);
        lemma_zero_bits_magnitude(m.angular_z_radps_bits);
    }
}

} // verus!
