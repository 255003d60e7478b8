use playmove_api::sandboxed::{
    run_sandboxed, ProcessExit, Sandbox, SandboxAction, SandboxEvent, SandboxOutcome, SandboxResult,
};

fn begun() -> Sandbox {
    let (state, action) =
        run_sandboxed("sui".to_string(), vec!["move".to_string(), "build".to_string()], 20);
    assert_eq!(
        action,
        SandboxAction::Spawn {
            program: "sui".to_string(),
            args: vec!["move".to_string(), "build".to_string()],
        }
    );
    assert_eq!(state, Sandbox::Spawning { timeout_secs: 20 });
    state
}

fn racing() -> Sandbox {
    let (state, action) = begun().step(SandboxEvent::Spawned);
    assert_eq!(action, SandboxAction::Race { timeout_secs: 20 });
    assert_eq!(state, Sandbox::Racing);
    state
}

#[test]
fn spawn_failure_ends_the_run_at_once() {
    let (state, action) =
        begun().step(SandboxEvent::SpawnFailed { reason: "No such file or directory".to_string() });
    assert_eq!(state, Sandbox::Done);
    let expected = SandboxResult {
        status: None,
        stdout: String::new(),
        stderr: String::new(),
        timed_out: false,
        error: Some("Failed to spawn process: No such file or directory".to_string()),
    };
    assert_eq!(expected.outcome(), SandboxOutcome::SpawnFailed);
    assert_eq!(action, SandboxAction::Return(expected));
}

#[test]
fn completed_run_returns_all_output() {
    let (state, action) = racing().step(SandboxEvent::Exited {
        status: Some(ProcessExit { code: Some(0) }),
        stdout: b"BUILDING hello\n".to_vec(),
        stderr: b"warning: unused\n".to_vec(),
    });
    assert_eq!(state, Sandbox::Done);
    let expected = SandboxResult {
        status: Some(ProcessExit { code: Some(0) }),
        stdout: "BUILDING hello\n".to_string(),
        stderr: "warning: unused\n".to_string(),
        timed_out: false,
        error: None,
    };
    assert_eq!(expected.outcome(), SandboxOutcome::Completed);
    assert_eq!(action, SandboxAction::Return(expected));
}

#[test]
fn invalid_bytes_are_replaced_not_fatal() {
    let (_, action) = racing().step(SandboxEvent::Exited {
        status: Some(ProcessExit { code: Some(1) }),
        stdout: vec![b'a', 0xff, b'b'],
        stderr: "é".as_bytes().to_vec(),
    });
    match action {
        SandboxAction::Return(result) => {
            assert_eq!(result.stdout, "a\u{fffd}b");
            assert_eq!(result.stderr, "é");
            assert_eq!(result.status, Some(ProcessExit { code: Some(1) }));
            assert!(!result.status.unwrap().success());
        }
        other => panic!("{:?}", other),
    }
}

#[test]
fn failed_wait_still_completes() {
    let (_, action) =
        racing().step(SandboxEvent::Exited { status: None, stdout: vec![], stderr: vec![] });
    match action {
        SandboxAction::Return(result) => {
            assert_eq!(result.outcome(), SandboxOutcome::Completed);
            assert_eq!(result.status, None);
        }
        other => panic!("{:?}", other),
    }
}

#[test]
fn deadline_kills_before_it_returns() {
    let (state, action) = racing().step(SandboxEvent::DeadlineElapsed {
        stdout: b"partial".to_vec(),
        stderr: vec![],
        reason: "deadline has elapsed".to_string(),
    });
    assert_eq!(action, SandboxAction::Kill);
    let (state, action) = state.step(SandboxEvent::Killed);
    assert_eq!(state, Sandbox::Done);
    let expected = SandboxResult {
        status: None,
        stdout: "partial".to_string(),
        stderr: String::new(),
        timed_out: true,
        error: Some("Error waiting for process: deadline has elapsed".to_string()),
    };
    assert_eq!(expected.outcome(), SandboxOutcome::TimedOut);
    assert_eq!(action, SandboxAction::Return(expected));
}

#[test]
fn reports_out_of_turn_change_nothing() {
    let (state, action) = begun().step(SandboxEvent::Killed);
    assert_eq!(action, SandboxAction::Ignore);
    assert_eq!(state, Sandbox::Spawning { timeout_secs: 20 });
    let (state, action) = racing().step(SandboxEvent::Spawned);
    assert_eq!(action, SandboxAction::Ignore);
    assert_eq!(state, Sandbox::Racing);
    let (state, action) = Sandbox::Done.step(SandboxEvent::Spawned);
    assert_eq!(action, SandboxAction::Ignore);
    assert_eq!(state, Sandbox::Done);
}

#[test]
fn exit_code_zero_is_success() {
    assert!(ProcessExit { code: Some(0) }.success());
    assert!(!ProcessExit { code: Some(2) }.success());
    assert!(!ProcessExit { code: None }.success());
}
