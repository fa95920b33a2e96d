use kiro_notebook::engine::AcpError;
use kiro_notebook::registry::SessionRegistry;
use kiro_notebook::resume::{
    is_stale_load_error, resume_step, ResumeAction, ResumeEvent, ResumePhase,
};

#[test]
fn register_lookup_and_cancel_handle() {
    let mut reg = SessionRegistry::new();
    assert!(reg.lookup("s1").is_none());
    reg.register("s1", 10);
    reg.register("s2", 11);
    assert_eq!(reg.lookup("s1"), Some(10));
    assert_eq!(reg.lookup("s2"), Some(11));
    assert_eq!(reg.cancel_handle("s1"), Some(10));
    assert!(reg.cancel_handle("s3").is_none());
    // Re-registering an id replaces its entry rather than duplicating it.
    reg.register("s1", 12);
    assert_eq!(reg.lookup("s1"), Some(12));
}

#[test]
fn close_session_is_idempotent() {
    let mut reg = SessionRegistry::new();
    reg.register("s1", 10);
    assert_eq!(reg.remove("s1"), Some(10));
    // The second close finds nothing, so nothing can be killed twice.
    assert_eq!(reg.remove("s1"), None);
    assert!(reg.lookup("s1").is_none());
    assert!(reg.cancel_handle("s1").is_none());
    // Closing an id that never existed is a no-op as well.
    assert_eq!(reg.remove("never"), None);
}

#[test]
fn resume_registered_uses_existing_entry() {
    let (p, a) = resume_step(ResumePhase::Deciding, ResumeEvent::Registered { handle: 7 });
    assert!(matches!(p, ResumePhase::Done));
    match a {
        ResumeAction::UseExisting { handle } => assert_eq!(handle, 7),
        _ => panic!("a registered id must be returned as-is"),
    }
    // Any stray event afterwards prescribes nothing.
    let (p2, a2) = resume_step(p, ResumeEvent::SpawnOk { handle: 8 });
    assert!(matches!(p2, ResumePhase::Done));
    assert!(matches!(a2, ResumeAction::Ignore));
}

fn stale_error() -> AcpError {
    AcpError::Protocol { message: "ACP error: session is active in another process".to_string() }
}

#[test]
fn stale_error_detection() {
    assert!(is_stale_load_error(&stale_error()));
    assert!(!is_stale_load_error(&AcpError::Protocol { message: "ACP error: boom".to_string() }));
    assert!(!is_stale_load_error(
        &AcpError::Transport { message: "active in another process".to_string() },
    ));
}

#[test]
fn resume_stale_lock_retries_exactly_once() {
    let (p, a) = resume_step(ResumePhase::Deciding, ResumeEvent::Unregistered);
    assert!(matches!(a, ResumeAction::SpawnProcess));
    let (p, a) = resume_step(p, ResumeEvent::SpawnOk { handle: 1 });
    assert!(matches!(a, ResumeAction::IssueLoad { handle: 1 }));
    let (p, a) = resume_step(p, ResumeEvent::LoadFail { error: stale_error() });
    assert!(matches!(a, ResumeAction::ClearStaleLockAndRespawn));
    let (p, a) = resume_step(p, ResumeEvent::SpawnOk { handle: 2 });
    assert!(matches!(a, ResumeAction::IssueLoad { handle: 2 }));
    // The retried load fails again, stale or not: the error surfaces and
    // nothing is retried a second time.
    let (p, a) = resume_step(p, ResumeEvent::LoadFail { error: stale_error() });
    assert!(matches!(p, ResumePhase::Done));
    match a {
        ResumeAction::Fail { error: AcpError::Protocol { message } } => {
            assert_eq!(message, "ACP error: session is active in another process");
        },
        _ => panic!("the second load failure must surface as the protocol error"),
    }
}

#[test]
fn resume_load_success_registers() {
    let (p, _) = resume_step(ResumePhase::Deciding, ResumeEvent::Unregistered);
    let (p, _) = resume_step(p, ResumeEvent::SpawnOk { handle: 5 });
    let (p, a) = resume_step(p, ResumeEvent::LoadOk);
    assert!(matches!(p, ResumePhase::Done));
    match a {
        ResumeAction::Register { handle } => assert_eq!(handle, 5),
        _ => panic!("a successful load must register the session"),
    }
}

#[test]
fn resume_other_load_failure_propagates_unchanged() {
    let (p, _) = resume_step(ResumePhase::Deciding, ResumeEvent::Unregistered);
    let (p, _) = resume_step(p, ResumeEvent::SpawnOk { handle: 5 });
    let (p, a) = resume_step(
        p,
        ResumeEvent::LoadFail {
            error: AcpError::Protocol { message: "ACP error: no such session".to_string() },
        },
    );
    assert!(matches!(p, ResumePhase::Done));
    match a {
        ResumeAction::Fail { error: AcpError::Protocol { message } } => {
            assert_eq!(message, "ACP error: no such session");
        },
        _ => panic!("a non-stale load failure must surface unchanged"),
    }
}

#[test]
fn resume_spawn_failure_fails_the_flow() {
    let (p, _) = resume_step(ResumePhase::Deciding, ResumeEvent::Unregistered);
    let (p, a) = resume_step(
        p,
        ResumeEvent::SpawnFail { error: AcpError::Spawn { message: "no executable".to_string() } },
    );
    assert!(matches!(p, ResumePhase::Done));
    assert!(matches!(a, ResumeAction::Fail { error: AcpError::Spawn { .. } }));
}
