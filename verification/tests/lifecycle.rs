use bevy_e2e::game::{
    binary_stem, child_exited_error, dead_child_outcome, failure_text, judge_probe, next_readiness_action,
    next_shutdown_action, panic_message, run_result, startup_timeout_error, truncate_output,
    DeadChild, ProbeVerdict, ReadinessAction, ShutdownAction, ShutdownStage,
};
use bevy_e2e::{Error, ExitReport};
use std::time::Duration;

#[test]
fn readiness_probe_is_bounded_by_deadline_operation_and_cap() {
    assert_eq!(next_readiness_action(true, 5, 5), ReadinessAction::AdoptExitedChild);
    assert_eq!(next_readiness_action(false, 0, 5_000_000_000), ReadinessAction::GiveUp);
    assert_eq!(
        next_readiness_action(false, 10_000_000_000, 5_000_000_000),
        ReadinessAction::Probe(200_000_000)
    );
    assert_eq!(next_readiness_action(false, 50_000_000, 5_000_000_000), ReadinessAction::Probe(50_000_000));
    assert_eq!(next_readiness_action(false, 10_000_000_000, 1_000), ReadinessAction::Probe(1_000));
}

#[test]
fn probe_verdicts() {
    assert_eq!(judge_probe(true, true), ProbeVerdict::Ready);
    assert_eq!(judge_probe(false, true), ProbeVerdict::GiveUp);
    assert_eq!(judge_probe(false, false), ProbeVerdict::Retry);
}

#[test]
fn missing_runtime_returns_startup_timeout_and_reaps() {
    let err = startup_timeout_error("out\n", "", Duration::from_millis(500));
    assert!(matches!(err, Error::Timeout { .. }));
    assert_eq!(
        err,
        Error::Timeout {
            operation: "startup (stdout_len=4, stderr_len=0)\n--- stdout ---\nout\n\n--- stderr ---\n"
                .to_owned(),
            timeout: Duration::from_millis(500),
        }
    );
}

#[test]
fn truncate_output_keeps_whole_characters() {
    assert_eq!(truncate_output("short"), "short");
    let exact = "a".repeat(4096);
    assert_eq!(truncate_output(&exact), exact);
    let long = "b".repeat(5000);
    assert_eq!(truncate_output(&long), format!("{}\n... [truncated]", "b".repeat(4096)));
    // 4095 ASCII bytes then a 3-byte character straddling the limit.
    let straddle = format!("{}€tail", "c".repeat(4095));
    assert_eq!(truncate_output(&straddle), format!("{}\n... [truncated]", "c".repeat(4095)));
}

#[test]
fn graceful_shutdown_sequence() {
    assert_eq!(next_shutdown_action(true, ShutdownStage::Start), ShutdownAction::Finish);
    assert_eq!(next_shutdown_action(false, ShutdownStage::Start), ShutdownAction::CheckChild);
    assert_eq!(next_shutdown_action(false, ShutdownStage::Checked(false)), ShutdownAction::AskToExit);
    assert_eq!(next_shutdown_action(false, ShutdownStage::Checked(true)), ShutdownAction::Reap);
    assert_eq!(next_shutdown_action(false, ShutdownStage::Asked), ShutdownAction::AwaitExit);
    assert_eq!(next_shutdown_action(false, ShutdownStage::Waited(true)), ShutdownAction::Reap);
    assert_eq!(next_shutdown_action(false, ShutdownStage::Waited(false)), ShutdownAction::Kill);
    assert_eq!(next_shutdown_action(false, ShutdownStage::Killed), ShutdownAction::Reap);
    assert_eq!(next_shutdown_action(false, ShutdownStage::Reaped), ShutdownAction::MarkShutDown);
}

#[test]
fn dead_child_error_and_panic_text() {
    let report = ExitReport { code: Some(3), description: "exit status: 3".to_owned() };
    let err = child_exited_error(Some(report));
    assert_eq!(err.message(), "child process exited unexpectedly with status exit status: 3");
    assert_eq!(
        child_exited_error(None),
        Error::Configuration("child reported not running but no exit status".to_owned())
    );
    assert_eq!(panic_message(Some("intentional panic")), "intentional panic");
    assert_eq!(panic_message(None), "panic");
}

#[test]
fn binary_stem_falls_back_to_game() {
    assert_eq!(binary_stem("target/debug/bevy-e2e-fixture"), "bevy-e2e-fixture");
    assert_eq!(binary_stem("dir/game.exe"), "game");
    assert_eq!(binary_stem(""), "game");
}

#[test]
fn error_messages_match_display_text() {
    let cases = vec![
        (Error::Spawn("No such file".to_owned()), "failed to spawn child process: No such file"),
        (
            Error::Brp { method: "m".to_owned(), message: "boom".to_owned() },
            "BRP request `m` failed: boom",
        ),
        (
            Error::UnsupportedWatch("w".to_owned()),
            "BRP watch/SSE response is not supported by v0.1: `w`",
        ),
        (Error::SelectorNotFound("p".to_owned()), "selector `p` was not found"),
        (Error::AmbiguousSelector("p".to_owned()), "selector `p` matched more than one entity"),
        (
            Error::Timeout { operation: "wait_until".to_owned(), timeout: Duration::from_millis(200) },
            "operation `wait_until` timed out after 200ms",
        ),
        (Error::Artifact("x".to_owned()), "artifact operation failed: x"),
        (Error::Configuration("y".to_owned()), "invalid E2E configuration: y"),
    ];
    for (error, text) in cases {
        assert_eq!(error.message(), text);
    }
    assert_eq!(
        Error::artifact_io("write stdout.log", "denied"),
        Error::Artifact("write stdout.log: denied".to_owned())
    );
}

#[test]
fn launch_reaches_diagnostics_and_shutdown_reaps() {
    // A live child with time left is probed, and an answer means ready.
    assert!(matches!(
        next_readiness_action(false, 10_000_000_000, 5_000_000_000),
        ReadinessAction::Probe(_)
    ));
    assert_eq!(judge_probe(true, false), ProbeVerdict::Ready);
    // Shutdown of a running child: check, ask, wait, reap, mark.
    let mut stage = ShutdownStage::Start;
    let mut actions = Vec::new();
    loop {
        let action = next_shutdown_action(false, stage);
        actions.push(action);
        stage = match action {
            ShutdownAction::CheckChild => ShutdownStage::Checked(false),
            ShutdownAction::AskToExit => ShutdownStage::Asked,
            ShutdownAction::AwaitExit => ShutdownStage::Waited(true),
            ShutdownAction::Kill => ShutdownStage::Killed,
            ShutdownAction::Reap => ShutdownStage::Reaped,
            ShutdownAction::MarkShutDown | ShutdownAction::Finish => break,
        };
    }
    assert_eq!(
        actions,
        vec![
            ShutdownAction::CheckChild,
            ShutdownAction::AskToExit,
            ShutdownAction::AwaitExit,
            ShutdownAction::Reap,
            ShutdownAction::MarkShutDown,
        ]
    );
    // A second shutdown does nothing.
    assert_eq!(next_shutdown_action(true, ShutdownStage::Start), ShutdownAction::Finish);
}

#[test]
fn run_shuts_down_after_closure() {
    // A passing test reports the shutdown's outcome and records no failure.
    assert_eq!(failure_text(&Ok(())), None);
    assert_eq!(run_result(Ok(()), Ok(())), Ok(()));
    assert_eq!(
        run_result(Ok(()), Err(Error::Spawn("wait failed".to_owned()))),
        Err(Error::Spawn("wait failed".to_owned()))
    );
}

#[test]
fn cleanup_failure_never_replaces_primary_failure() {
    let primary = || Error::Configuration("intentional returned error".to_owned());
    assert_eq!(
        failure_text(&Err(primary())),
        Some("invalid E2E configuration: intentional returned error".to_owned())
    );
    assert_eq!(
        run_result(Err(primary()), Err(Error::Spawn("kill failed".to_owned()))),
        Err(primary())
    );
}

#[test]
fn dead_child_is_captured_only_with_an_exit_status() {
    let report = ExitReport { code: Some(3), description: "exit status: 3".to_owned() };
    match dead_child_outcome(Some(report)) {
        DeadChild::CaptureThenReport(error) => assert_eq!(
            error,
            Error::ChildExited(ExitReport { code: Some(3), description: "exit status: 3".to_owned() })
        ),
        DeadChild::ReportNow(_) => panic!("a read exit status is captured"),
    }
    match dead_child_outcome(None) {
        DeadChild::ReportNow(error) => assert_eq!(
            error,
            Error::Configuration("child reported not running but no exit status".to_owned())
        ),
        DeadChild::CaptureThenReport(_) => panic!("without a status nothing is captured"),
    }
}
