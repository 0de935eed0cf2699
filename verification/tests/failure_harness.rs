use bevy_e2e::artifacts::{failure_report, remote_error_entry};
use bevy_e2e::game::{child_exited_error, panic_message};
use bevy_e2e::{Error, ExitReport, Json};

fn error_text(report: &Json) -> &str {
    report.get("error").and_then(|v| v.as_str()).unwrap_or_default()
}

#[test]
fn returned_error_writes_failure_bundle() {
    let error = Error::Configuration("intentional returned error".into());
    let failure = failure_report(&error.message(), 4242, &vec![]);
    assert!(
        error_text(&failure).contains("intentional returned error"),
        "failure.json error missing original Err text: {failure:?}"
    );
    assert!(failure.get("child_pid").is_some());
    assert_eq!(failure.get("remote_errors"), Some(&Json::Array(vec![])));
}

#[test]
fn panic_writes_failure_bundle() {
    let message = panic_message(Some("intentional panic"));
    let failure = failure_report(&message, 4242, &vec![]);
    assert!(
        error_text(&failure).contains("intentional panic"),
        "failure.json error missing panic text: {failure:?}"
    );
}

#[test]
fn dead_child_writes_local_failure_artifacts() {
    let error = child_exited_error(Some(ExitReport {
        code: Some(0),
        description: "exit status: 0".to_owned(),
    }));
    let remote = vec![
        remote_error_entry(
            "screenshot",
            &Error::Brp { method: "brp_extras/screenshot".to_owned(), message: "refused".to_owned() },
        ),
        remote_error_entry(
            "world",
            &Error::Brp { method: "world.query".to_owned(), message: "refused".to_owned() },
        ),
    ];
    let failure = failure_report(&error.message(), 4242, &remote);
    assert!(failure.get("error").and_then(|v| v.as_str()).is_some());
    // Primary failure must remain the child-exit failure, not a remote artifact error.
    let primary = error_text(&failure).to_lowercase();
    assert!(
        !primary.contains("screenshot") && !primary.contains("world.json"),
        "remote artifact failure must not replace primary failure: {failure:?}"
    );
    match failure.get("remote_errors") {
        Some(Json::Array(items)) => {
            assert_eq!(items.len(), 2);
            assert_eq!(items[0].as_str(), Some("screenshot: BRP request `brp_extras/screenshot` failed: refused"));
        }
        other => panic!("expected remote errors, got {other:?}"),
    }
}
