use rmm_agent::agent::{startup_steps, AgentState, LoopKind, RunStep, StartupStep, Supervisor, TickAction};
use rmm_agent::enrollment::{interpret_check, EnrollError, EnrollmentStatus, PollStep};

#[test]
fn display_strings() {
    assert_eq!(AgentState::NotEnrolled.as_display(), "Not Enrolled");
    assert_eq!(AgentState::PendingApproval.as_display(), "Pending Approval");
    assert_eq!(AgentState::Active.as_display(), "Online");
    assert_eq!(AgentState::Revoked.as_display(), "Revoked");
    assert_eq!(AgentState::Error("boom".to_string()).as_display(), "Error: boom");
    assert_eq!(AgentState::Active.status_label(), "Status: Online");
}

#[test]
fn initial_state_from_credential() {
    assert_eq!(Supervisor::new(true).get_state(), AgentState::Active);
    assert_eq!(Supervisor::new(false).get_state(), AgentState::NotEnrolled);
}

#[test]
fn setting_same_state_is_silent() {
    let mut s = Supervisor::new(false);
    assert!(!s.set_state(AgentState::NotEnrolled));
    assert!(s.set_state(AgentState::Error("x".to_string())));
    assert!(!s.set_state(AgentState::Error("x".to_string())));
    assert!(s.set_state(AgentState::Error("y".to_string())));
    assert_eq!(s.get_state(), AgentState::Error("y".to_string()));
}

#[test]
fn fresh_enroll_approve_then_loops() {
    let mut s = Supervisor::new(false);
    assert!(matches!(s.start(None), RunStep::Enroll));
    assert!(matches!(s.after_enroll(&Ok(())), RunStep::AwaitApproval));
    assert_eq!(s.get_state(), AgentState::PendingApproval);
    let first = interpret_check("pending", None);
    assert_eq!(rmm_agent::enrollment::approval_poll_step(&Some(first.status)), PollStep::Wait);
    let second = interpret_check("approved", Some("K".to_string()));
    let step = rmm_agent::enrollment::approval_poll_step(&Some(second.status));
    assert_eq!(step, PollStep::Approved);
    match s.after_approval(Some(step), Some("K".to_string())) {
        RunStep::RunLoops(k) => assert_eq!(k, "K"),
        other => panic!("unexpected {:?}", other),
    }
    assert_eq!(s.get_state(), AgentState::Active);
    assert_eq!(s.tick(LoopKind::Metrics), TickAction::Work);
}

#[test]
fn rejected_enrollment_goes_to_error_and_stays_quiet() {
    let mut s = Supervisor::new(false);
    let step = s.after_enroll(&Err(EnrollError::Rejected("device banned".to_string())));
    assert!(matches!(step, RunStep::Idle));
    assert_eq!(s.get_state(), AgentState::Error("Enrollment rejected by server: device banned".to_string()));
    assert!(s.get_state().as_display().starts_with("Error: Enrollment rejected"));
    assert_eq!(s.tick(LoopKind::StatusPoll), TickAction::Idle);
    assert!(!s.is_cancelled());
}

#[test]
fn revocation_mid_run() {
    let mut s = Supervisor::new(true);
    assert!(matches!(s.start(Some("K".to_string())), RunStep::RunLoops(_)));
    let outcome = interpret_check("revoked", None);
    assert!(matches!(outcome.credential, rmm_agent::enrollment::CredentialAction::Delete));
    assert!(s.after_status_check(&Some(outcome.status)));
    assert_eq!(s.get_state(), AgentState::Revoked);
    assert_eq!(s.tick(LoopKind::Metrics), TickAction::Idle);
}

#[test]
fn status_poll_transitions() {
    let mut s = Supervisor::new(true);
    assert!(!s.after_status_check(&Some(EnrollmentStatus::Pending)));
    assert_eq!(s.get_state(), AgentState::Active);
    assert!(!s.after_status_check(&None));
    assert!(s.after_status_check(&Some(EnrollmentStatus::Unknown("weird".to_string()))));
    assert_eq!(s.get_state(), AgentState::Error("Unknown status: weird".to_string()));
    assert!(s.after_status_check(&Some(EnrollmentStatus::Pending)));
    assert_eq!(s.get_state(), AgentState::PendingApproval);
    assert!(s.after_status_check(&Some(EnrollmentStatus::Approved)));
    assert_eq!(s.get_state(), AgentState::Active);
}

#[test]
fn approval_outcomes() {
    let mut s = Supervisor::new(false);
    assert!(matches!(s.after_approval(Some(PollStep::Revoked), None), RunStep::Idle));
    assert_eq!(s.get_state(), AgentState::Revoked);
    let mut s = Supervisor::new(false);
    assert!(matches!(s.after_approval(Some(PollStep::Approved), None), RunStep::Idle));
    assert_eq!(s.get_state(), AgentState::Error("Device approved but no API key found".to_string()));
    let mut s = Supervisor::new(false);
    assert!(matches!(s.after_approval(None, None), RunStep::Exit));
    assert_eq!(s.get_state(), AgentState::NotEnrolled);
}

#[test]
fn shutdown_stops_every_loop() {
    let mut s = Supervisor::new(true);
    assert_eq!(s.tick(LoopKind::Heartbeat), TickAction::Work);
    s.shutdown();
    assert!(s.is_cancelled());
    for k in [LoopKind::Metrics, LoopKind::Heartbeat, LoopKind::StatusPoll, LoopKind::UpdateCheck] {
        assert_eq!(s.tick(k), TickAction::Stop);
    }
    assert!(matches!(s.start(Some("K".to_string())), RunStep::Exit));
    assert!(matches!(s.after_enroll(&Ok(())), RunStep::Exit));
    assert!(matches!(s.after_enroll(&Err(EnrollError::Cancelled)), RunStep::Exit));
    assert_eq!(s.get_state(), AgentState::Active);
}

#[test]
fn reset_returns_to_not_enrolled() {
    let mut s = Supervisor::new(true);
    s.reset();
    assert_eq!(s.get_state(), AgentState::NotEnrolled);
}

#[test]
fn update_is_applied_before_network() {
    let steps = startup_steps();
    let apply = steps.iter().position(|s| *s == StartupStep::ApplyPendingUpdate).unwrap();
    let run = steps.iter().position(|s| *s == StartupStep::Run).unwrap();
    assert!(apply < run);
    assert_eq!(steps.len(), 6);
}
