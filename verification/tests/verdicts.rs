use robot_rover::run::{check_run, check_stopped, FinalMotion, ScenarioRun, TerminalEvidence, VerifyError};
use robot_rover::scenarios::expiry_stop::ExpiryStop;
use robot_rover::scenarios::forward_turn_stop::ForwardTurnStop;
use robot_rover::scenarios::forward_turn_stop2::ForwardTurnStop2;
use robot_rover::scenarios::intentionally_failing::IntentionallyFailing;

fn strings(v: &[&str]) -> Vec<String> {
    v.iter().map(|s| s.to_string()).collect()
}

fn complete_evidence() -> TerminalEvidence {
    TerminalEvidence {
        execution_identity: "exec/rover/1".to_string(),
        quantum_ns: 2_000_000,
        completed_transitions: 6,
        final_observation_cut: true,
        final_capture_drain: true,
        cleanup_ok: true,
    }
}

/// A run with an outcome for every planned step and every planned capture.
fn complete_run(plan_labels: Vec<String>, captures: Vec<String>) -> ScenarioRun {
    ScenarioRun {
        sealed: true,
        passed: true,
        outcomes: plan_labels,
        captures,
        terminal_evidence: Some(complete_evidence()),
        final_motion: None,
        final_safety_stopped: None,
    }
}

fn stopped_motion() -> FinalMotion {
    FinalMotion { linear_x_mps_bits: 0.0f64.to_bits(), angular_z_radps_bits: (-0.0f64).to_bits() }
}

fn fts_complete_run() -> ScenarioRun {
    let plan = ForwardTurnStop.plan();
    complete_run(
        plan.steps.iter().map(|s| s.label.clone()).collect(),
        plan.captures.iter().map(|c| c.name.clone()).collect(),
    )
}

/// A run with an outcome at every boundary, both captures, complete evidence
/// and a stopped end.
fn expiry_complete_run() -> ScenarioRun {
    let mut run = complete_run(
        strings(&["s00000000", "s00000001"]),
        strings(&["motion/status", "safety/status"]),
    );
    run.final_motion = Some(stopped_motion());
    run.final_safety_stopped = Some(true);
    run
}

#[test]
fn forward_turn_stop_accepts_a_complete_run() {
    assert!(matches!(ForwardTurnStop.verify(&fts_complete_run()), Ok(())));
}

#[test]
fn forward_turn_stop_rejects_an_unsealed_run() {
    let mut run = fts_complete_run();
    run.sealed = false;
    run.passed = false;
    assert!(matches!(ForwardTurnStop.verify(&run), Err(VerifyError::NotSealed)));
}

#[test]
fn forward_turn_stop_rejects_a_run_that_did_not_pass() {
    let mut run = fts_complete_run();
    run.passed = false;
    run.terminal_evidence = None;
    assert!(matches!(ForwardTurnStop.verify(&run), Err(VerifyError::NotPassed)));
}

#[test]
fn forward_turn_stop_names_the_first_step_without_outcome() {
    let mut run = fts_complete_run();
    run.outcomes.retain(|l| l != "s00000002" && l != "s00000004");
    match ForwardTurnStop.verify(&run) {
        Err(VerifyError::MissingOutcome { label }) => assert_eq!(label, "s00000002"),
        _ => panic!("expected a missing outcome"),
    }
}

#[test]
fn forward_turn_stop_ignores_outcome_order_and_extra_outcomes() {
    let mut run = fts_complete_run();
    run.outcomes.reverse();
    run.outcomes.push("unplanned".to_string());
    assert!(matches!(ForwardTurnStop.verify(&run), Ok(())));
}

#[test]
fn forward_turn_stop_names_the_missing_capture() {
    let mut run = fts_complete_run();
    run.captures = strings(&["motion/status"]);
    match ForwardTurnStop.verify(&run) {
        Err(VerifyError::MissingCapture { name }) => assert_eq!(name, "safety/status"),
        _ => panic!("expected a missing capture"),
    }
}

#[test]
fn forward_turn_stop_checks_outcomes_before_captures() {
    let mut run = fts_complete_run();
    run.outcomes.clear();
    run.captures.clear();
    match ForwardTurnStop.verify(&run) {
        Err(VerifyError::MissingOutcome { label }) => assert_eq!(label, "s00000000"),
        _ => panic!("expected a missing outcome"),
    }
}

#[test]
fn forward_turn_stop_requires_terminal_evidence() {
    let mut run = fts_complete_run();
    run.terminal_evidence = None;
    assert!(matches!(ForwardTurnStop.verify(&run), Err(VerifyError::MissingTerminalEvidence)));
}

#[test]
fn forward_turn_stop_rejects_each_incomplete_evidence() {
    let cases: Vec<(TerminalEvidence, fn(&VerifyError) -> bool)> = vec![
        (
            TerminalEvidence { quantum_ns: 0, ..complete_evidence() },
            |e| matches!(e, VerifyError::ZeroQuantum),
        ),
        (
            TerminalEvidence { completed_transitions: 0, ..complete_evidence() },
            |e| matches!(e, VerifyError::ZeroCompletedTransitions),
        ),
        (
            TerminalEvidence { final_observation_cut: false, ..complete_evidence() },
            |e| matches!(e, VerifyError::NoFinalObservationCut),
        ),
        (
            TerminalEvidence { final_capture_drain: false, ..complete_evidence() },
            |e| matches!(e, VerifyError::NoFinalCaptureDrain),
        ),
        (
            TerminalEvidence { cleanup_ok: false, ..complete_evidence() },
            |e| matches!(e, VerifyError::CleanupFailed),
        ),
    ];
    for (evidence, expected) in cases {
        let mut run = fts_complete_run();
        run.terminal_evidence = Some(evidence);
        match ForwardTurnStop.verify(&run) {
            Err(e) => assert!(expected(&e)),
            Ok(()) => panic!("incomplete evidence accepted"),
        }
    }
}

#[test]
fn zero_quantum_is_reported_before_the_other_evidence_checks() {
    let mut run = fts_complete_run();
    run.terminal_evidence = Some(TerminalEvidence {
        execution_identity: "exec/rover/1".to_string(),
        quantum_ns: 0,
        completed_transitions: 0,
        final_observation_cut: false,
        final_capture_drain: false,
        cleanup_ok: false,
    });
    assert!(matches!(ForwardTurnStop.verify(&run), Err(VerifyError::ZeroQuantum)));
}

#[test]
fn expiry_stop_accepts_a_complete_run() {
    assert!(matches!(ExpiryStop.verify(&expiry_complete_run()), Ok(())));
}

#[test]
fn expiry_stop_requires_the_capture_drain() {
    let mut run = expiry_complete_run();
    run.terminal_evidence = Some(TerminalEvidence { final_capture_drain: false, ..complete_evidence() });
    assert!(matches!(ExpiryStop.verify(&run), Err(VerifyError::NoFinalCaptureDrain)));
}

#[test]
fn expiry_stop_expects_outcomes_for_exactly_its_planned_steps() {
    let plan = ExpiryStop.plan();
    let mut run = expiry_complete_run();
    run.outcomes = plan.steps.iter().map(|s| s.label.clone()).collect();
    assert!(matches!(ExpiryStop.verify(&run), Ok(())));
    run.outcomes = strings(&["s00000001"]);
    match ExpiryStop.verify(&run) {
        Err(VerifyError::MissingOutcome { label }) => assert_eq!(label, "s00000000"),
        _ => panic!("expected a missing outcome"),
    }
}

#[test]
fn verdicts_require_a_recorded_execution_identity() {
    let mut run = fts_complete_run();
    run.terminal_evidence = Some(TerminalEvidence { execution_identity: String::new(), ..complete_evidence() });
    assert!(matches!(ForwardTurnStop.verify(&run), Err(VerifyError::MissingExecutionIdentity)));
    let mut run = expiry_complete_run();
    run.terminal_evidence = Some(TerminalEvidence {
        execution_identity: String::new(),
        quantum_ns: 0,
        ..complete_evidence()
    });
    assert!(matches!(ExpiryStop.verify(&run), Err(VerifyError::MissingExecutionIdentity)));
}

#[test]
fn expiry_stop_rejects_a_moving_final_motion_status() {
    let mut run = expiry_complete_run();
    run.final_motion = Some(FinalMotion { linear_x_mps_bits: 0.3f64.to_bits(), ..stopped_motion() });
    assert!(matches!(ExpiryStop.verify(&run), Err(VerifyError::MotionNotStopped)));
    run.final_motion = Some(FinalMotion { angular_z_radps_bits: 1e-9f64.to_bits(), ..stopped_motion() });
    assert!(matches!(ExpiryStop.verify(&run), Err(VerifyError::MotionNotStopped)));
    run.final_motion = None;
    assert!(matches!(ExpiryStop.verify(&run), Err(VerifyError::MotionNotStopped)));
}

#[test]
fn expiry_stop_rejects_an_unstopped_safety_status() {
    let mut run = expiry_complete_run();
    run.final_safety_stopped = Some(false);
    assert!(matches!(ExpiryStop.verify(&run), Err(VerifyError::SafetyNotStopped)));
    run.final_safety_stopped = None;
    assert!(matches!(ExpiryStop.verify(&run), Err(VerifyError::SafetyNotStopped)));
}

#[test]
fn expiry_stop_checks_the_evidence_before_the_stop() {
    let mut run = expiry_complete_run();
    run.final_motion = None;
    run.terminal_evidence = Some(TerminalEvidence { cleanup_ok: false, ..complete_evidence() });
    assert!(matches!(ExpiryStop.verify(&run), Err(VerifyError::CleanupFailed)));
}

#[test]
fn check_stopped_accepts_either_zero() {
    let mut run = expiry_complete_run();
    run.final_motion = Some(FinalMotion {
        linear_x_mps_bits: (-0.0f64).to_bits(),
        angular_z_radps_bits: 0.0f64.to_bits(),
    });
    assert!(matches!(check_stopped(&run), Ok(())));
}

#[test]
fn expiry_stop_names_the_first_missing_step() {
    let mut run = expiry_complete_run();
    run.outcomes = strings(&["s00000000"]);
    match ExpiryStop.verify(&run) {
        Err(VerifyError::MissingOutcome { label }) => assert_eq!(label, "s00000001"),
        _ => panic!("expected a missing outcome"),
    }
}

#[test]
fn expiry_stop_rejects_a_failed_cleanup() {
    let mut run = expiry_complete_run();
    run.terminal_evidence = Some(TerminalEvidence { cleanup_ok: false, ..complete_evidence() });
    assert!(matches!(ExpiryStop.verify(&run), Err(VerifyError::CleanupFailed)));
}

#[test]
fn forward_turn_stop2_accepts_any_run() {
    let empty = ScenarioRun {
        sealed: false,
        passed: false,
        outcomes: Vec::new(),
        captures: Vec::new(),
        terminal_evidence: None,
        final_motion: None,
        final_safety_stopped: None,
    };
    assert!(matches!(ForwardTurnStop2.verify(&empty), Ok(())));
}

#[test]
fn intentionally_failing_rejects_even_a_complete_run() {
    let plan = IntentionallyFailing.plan();
    let run = complete_run(strings(&["s00000000"]), vec![plan.captures[0].name.clone()]);
    assert!(matches!(IntentionallyFailing.verify(&run), Err(VerifyError::AlwaysRejected)));
}

#[test]
fn check_run_with_nothing_expected_needs_only_seal_pass_and_evidence() {
    let run = complete_run(Vec::new(), Vec::new());
    assert!(matches!(check_run(&run, &Vec::new(), &Vec::new(), true), Ok(())));
    let expected = strings(&["a", "b"]);
    match check_run(&run, &expected, &Vec::new(), false) {
        Err(VerifyError::MissingOutcome { label }) => assert_eq!(label, "a"),
        _ => panic!("expected a missing outcome"),
    }
}
