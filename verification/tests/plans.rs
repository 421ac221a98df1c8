use robot_rover::payload::{ControlMode, Payload};
use robot_rover::plan::{Action, ScenarioPlan, Validity, QUANTUM_MICROS};
use robot_rover::port::{PortKind, PortSignature};
use robot_rover::scenarios::expiry_stop::{self, ExpiryStop};
use robot_rover::scenarios::forward_turn_stop::{self, ForwardTurnStop};
use robot_rover::scenarios::forward_turn_stop2::{self, ForwardTurnStop2};
use robot_rover::scenarios::intentionally_failing::{self, IntentionallyFailing};

fn labels(plan: &ScenarioPlan) -> Vec<String> {
    plan.steps.iter().map(|s| s.label.clone()).collect()
}

fn boundaries(plan: &ScenarioPlan) -> Vec<u32> {
    plan.steps.iter().map(|s| s.boundary).collect()
}

fn capture_names(plan: &ScenarioPlan) -> Vec<String> {
    plan.captures.iter().map(|c| c.name.clone()).collect()
}

fn intent(action: &Action) -> Option<(String, i64, i64)> {
    match action {
        Action::Setpoint { payload: Payload::Intent(i), .. } => {
            Some((i.owner_id.clone(), i.linear_x_mm_per_s, i.angular_z_mrad_per_s))
        }
        _ => None,
    }
}

fn signature_parts(s: &PortSignature) -> (String, String, String, PortKind, String, String) {
    (
        s.name.clone(),
        s.service.clone(),
        s.method.clone(),
        s.kind,
        s.request_type.clone(),
        s.reply_type.clone(),
    )
}

/// The simulator's admission conditions, checked on a concrete plan.
fn assert_well_formed(plan: &ScenarioPlan) {
    let quantum = QUANTUM_MICROS as u64;
    assert!(plan.duration_micros > 0);
    assert_eq!(plan.duration_micros % quantum, 0);
    let transitions = plan.duration_micros / quantum;
    for (i, step) in plan.steps.iter().enumerate() {
        assert!((step.boundary as u64) < transitions, "step {} outside the run", step.label);
        for later in &plan.steps[i + 1..] {
            assert!(step.boundary <= later.boundary);
            assert_ne!(step.label, later.label);
        }
        match &step.action {
            Action::Setpoint { target, signature, .. } => {
                assert!(!target.is_empty());
                assert_eq!(signature.kind, PortKind::Setpoint);
            }
            Action::Command { target, signature, label, host_deadline_micros, .. } => {
                assert!(!target.is_empty());
                assert_eq!(signature.kind, PortKind::Commands);
                assert!(!label.is_empty());
                assert!(*host_deadline_micros > 0);
            }
        }
    }
    for (i, c) in plan.captures.iter().enumerate() {
        assert_eq!(c.signature.kind, PortKind::State);
        for later in &plan.captures[i + 1..] {
            assert_ne!(c.name, later.name);
        }
    }
}

#[test]
fn forward_turn_stop_plan_is_arm_forward_turn_stop_disarm() {
    let plan = ForwardTurnStop.plan();
    assert_eq!(plan.scene, "simulation/scene.xml");
    assert_eq!(plan.duration_micros, 12_000);
    assert_eq!(
        labels(&plan),
        vec!["s00000000", "s00000001", "s00000002", "s00000003", "s00000004", "s00000005"]
    );
    assert_eq!(boundaries(&plan), vec![0, 1, 2, 3, 4, 5]);
    match &plan.steps[0].action {
        Action::Command {
            target,
            signature,
            request: Payload::Arm { mode, owner_id },
            label,
            simulated_deadline_micros,
            host_deadline_micros,
        } => {
            assert_eq!(target, "motion");
            assert_eq!(signature.name, "motion/emergency");
            assert_eq!(signature.request_type, "phoxal.motion.v1.ApplyEmergencyRequest");
            assert_eq!(*mode, ControlMode::Manual);
            assert_eq!(owner_id, "scenarios/ForwardTurnStop");
            assert_eq!(label, "arm-rover");
            assert_eq!(*simulated_deadline_micros, 12_000);
            assert_eq!(*host_deadline_micros, 1_000_000);
        }
        _ => panic!("the first step must arm Motion"),
    }
    let owner = "scenarios/ForwardTurnStop".to_string();
    assert_eq!(intent(&plan.steps[1].action), Some((owner.clone(), 500, 0)));
    assert_eq!(intent(&plan.steps[2].action), Some((owner.clone(), 500, 0)));
    assert_eq!(intent(&plan.steps[3].action), Some((owner.clone(), 0, 500)));
    assert_eq!(intent(&plan.steps[4].action), Some((owner, 0, 0)));
    match &plan.steps[5].action {
        Action::Command { request: Payload::Disarm, label, .. } => assert_eq!(label, "disarm-rover"),
        _ => panic!("the last step must disarm Motion"),
    }
    for step in &plan.steps[1..5] {
        match &step.action {
            Action::Setpoint { signature, validity, .. } => {
                assert_eq!(
                    signature_parts(signature),
                    (
                        "motion/manual".to_string(),
                        "phoxal.motion.v1.Motion".to_string(),
                        "Manual".to_string(),
                        PortKind::Setpoint,
                        "phoxal.motion.v1.MotionIntent".to_string(),
                        "phoxal.motion.v1.MotionIntent".to_string(),
                    )
                );
                assert_eq!(*validity, Validity::Permanent);
            }
            _ => panic!("middle steps are setpoints"),
        }
    }
    assert_eq!(capture_names(&plan), vec!["motion/status", "safety/status"]);
    assert_eq!(
        signature_parts(&plan.captures[1].signature),
        (
            "safety/status".to_string(),
            "phoxal.safety.v1.Safety".to_string(),
            "Status".to_string(),
            PortKind::State,
            "google.protobuf.Empty".to_string(),
            "phoxal.safety.v1.SafetyStatus".to_string(),
        )
    );
    assert_eq!(forward_turn_stop::DURATION_MICROS, 12_000);
}

#[test]
fn forward_turn_stop_plan_is_well_formed_with_one_step_per_transition() {
    let plan = ForwardTurnStop.plan();
    assert_well_formed(&plan);
    assert_eq!(plan.steps.len() as u64, plan.duration_micros / QUANTUM_MICROS as u64);
    for (i, step) in plan.steps.iter().enumerate() {
        assert_eq!(step.boundary as usize, i);
        assert_eq!(step.label, format!("s{:08}", i));
    }
}

#[test]
fn expiry_stop_plan_authors_only_motion_before_the_deadline() {
    let plan = ExpiryStop.plan();
    assert_eq!(plan.scene, "simulation/scene.xml");
    assert_eq!(plan.duration_micros, expiry_stop::DURATION_MICROS);
    assert_eq!(plan.duration_micros, 8_000);
    assert_eq!(labels(&plan), vec!["s00000000", "s00000001"]);
    assert_eq!(boundaries(&plan), vec![0, 1]);
    let owner = "scenarios/ExpiryStop".to_string();
    let intents: Vec<_> = plan.steps.iter().map(|s| intent(&s.action)).collect();
    assert_eq!(intents, vec![Some((owner.clone(), 300, 0)), Some((owner, 300, 0))]);
    let leases: Vec<_> = plan
        .steps
        .iter()
        .map(|s| match &s.action {
            Action::Setpoint { validity, .. } => *validity,
            _ => panic!("a setpoint"),
        })
        .collect();
    assert_eq!(leases, vec![Validity::Lease { valid_for_ms: 4 }, Validity::Lease { valid_for_ms: 2 }]);
    for step in &plan.steps {
        assert!((step.boundary as u64) * (QUANTUM_MICROS as u64) < expiry_stop::AUTHORITY_DEADLINE_MICROS);
        let (_, linear, angular) = intent(&step.action).unwrap();
        assert_ne!((linear, angular), (0, 0));
        assert_eq!(step.label, format!("s{:08}", step.boundary));
        match &step.action {
            Action::Setpoint { validity: Validity::Lease { valid_for_ms }, .. } => assert_eq!(
                step.boundary as u64 * QUANTUM_MICROS as u64 + valid_for_ms * 1000,
                expiry_stop::AUTHORITY_DEADLINE_MICROS
            ),
            _ => panic!("a leased setpoint"),
        }
    }
    assert_eq!(capture_names(&plan), vec!["motion/status", "safety/status"]);
    assert_well_formed(&plan);
}

#[test]
fn forward_turn_stop2_plan_has_three_steps_in_a_thousand_transitions() {
    let plan = ForwardTurnStop2.plan();
    assert_eq!(plan.scene, "scenarios/ForwardTurnStop2");
    assert_eq!(plan.duration_micros, forward_turn_stop2::DURATION_MICROS);
    assert_eq!(plan.duration_micros / QUANTUM_MICROS as u64, 1000);
    assert_eq!(labels(&plan), vec!["forward", "turn_right", "stop"]);
    assert_eq!(boundaries(&plan), vec![0, 300, 600]);
    match &plan.steps[0].action {
        Action::Setpoint { payload: Payload::Bytes(b), signature, .. } => {
            assert_eq!(b, &vec![0x01, 0x02, 0x03, 0x04]);
            assert_eq!(signature.name, "motion/cmd");
        }
        _ => panic!("forward is a setpoint"),
    }
    match &plan.steps[1].action {
        Action::Command {
            request: Payload::Bytes(b),
            label,
            simulated_deadline_micros,
            host_deadline_micros,
            signature,
            ..
        } => {
            assert_eq!(b, &vec![0x40, 0x50, 0x60]);
            assert_eq!(label, "turn_right");
            assert_eq!(*simulated_deadline_micros, 500_000);
            assert_eq!(*host_deadline_micros, 1_000_000);
            assert_eq!(signature.name, "motion/turn");
        }
        _ => panic!("turn is a command"),
    }
    match &plan.steps[2].action {
        Action::Setpoint { payload: Payload::Bytes(b), .. } => assert_eq!(b, &vec![0x00]),
        _ => panic!("stop is a setpoint"),
    }
    assert_eq!(capture_names(&plan), vec!["motion", "safety"]);
    assert_eq!(plan.captures[0].signature.name, "motion/state");
    assert_eq!(plan.captures[1].signature.reply_type, "SafetyState");
    assert_well_formed(&plan);
}

#[test]
fn intentionally_failing_plan_is_one_stop_intent() {
    let plan = IntentionallyFailing.plan();
    assert_eq!(plan.duration_micros, intentionally_failing::DURATION_MICROS);
    assert_eq!(plan.duration_micros, 2_000);
    assert_eq!(labels(&plan), vec!["s00000000"]);
    assert_eq!(
        intent(&plan.steps[0].action),
        Some(("scenarios/IntentionallyFailing".to_string(), 0, 0))
    );
    assert_eq!(capture_names(&plan), vec!["motion/status"]);
    assert_well_formed(&plan);
}

#[test]
fn forward_turn_stop_and_intentionally_failing_end_with_a_stop() {
    for plan in [ForwardTurnStop.plan(), IntentionallyFailing.plan()] {
        let last = plan.steps.iter().rev().find_map(|s| intent(&s.action));
        let (_, linear, angular) = last.expect("the plan sets an intent");
        assert_eq!((linear, angular), (0, 0));
    }
}
