use bevy_e2e::artifacts::{
    auto_session_name, check_screenshot, failure_report, labeled_session_name,
    remote_error_entry, sanitize_label, screenshot_params, world_snapshot, SessionCounter,
};
use bevy_e2e::{Error, Json, Number};

fn text(s: &str) -> Json {
    Json::String(s.to_owned())
}

#[test]
fn labels_are_sanitized() {
    assert_eq!(sanitize_label("artifacts_screenshot"), "artifacts_screenshot");
    assert_eq!(sanitize_label("dead child/../x"), "dead_child____x");
    assert_eq!(sanitize_label(""), "session");
    assert_eq!(sanitize_label("é-1"), "_-1");
}

#[test]
fn session_names_prefer_capture_label_then_options_label() {
    assert_eq!(labeled_session_name(Some("menu"), Some("ignored")), Some("menu".to_owned()));
    assert_eq!(labeled_session_name(None, Some("dead child")), Some("dead_child".to_owned()));
    assert_eq!(labeled_session_name(None, None), None);
    assert_eq!(auto_session_name("bevy-e2e.fixture", 1234, 7), "bevy-e2e_fixture-1234-7");
}

#[test]
fn failure_report_shape() {
    let errors = vec!["screenshot: boom".to_owned()];
    let report = failure_report("intentional returned error", 99, &errors);
    assert_eq!(
        report,
        Json::Object(vec![
            ("error".to_owned(), text("intentional returned error")),
            ("child_pid".to_owned(), Json::Number(Number::PosInt(99))),
            ("remote_errors".to_owned(), Json::Array(vec![text("screenshot: boom")])),
        ])
    );
    let entry = remote_error_entry("world", &Error::SelectorNotFound("p".to_owned()));
    assert_eq!(entry, "world: selector `p` was not found");
}

#[test]
fn world_and_screenshot_payloads() {
    let world = world_snapshot(Json::Number(Number::PosInt(12)), Json::Array(vec![]));
    assert_eq!(world.get("frame_count"), Some(&Json::Number(Number::PosInt(12))));
    assert_eq!(world.get("entities"), Some(&Json::Array(vec![])));
    assert_eq!(
        screenshot_params("/tmp/a/screenshot.png"),
        Json::Object(vec![("path".to_owned(), text("/tmp/a/screenshot.png"))])
    );
}

#[test]
fn screenshot_file_checks() {
    assert_eq!(check_screenshot("/p.png", Ok(10)), Ok(()));
    assert_eq!(
        check_screenshot("/p.png", Ok(0)),
        Err(Error::Artifact("screenshot file is empty: /p.png".to_owned()))
    );
    assert_eq!(
        check_screenshot("/p.png", Err("not found".to_owned())),
        Err(Error::Artifact(
            "screenshot completed but file missing at /p.png: not found".to_owned()
        ))
    );
}

#[test]
fn sanitizing_twice_changes_nothing() {
    for label in ["", "a b", "ok-label_1", "../x", "ü"] {
        let once = sanitize_label(label);
        assert_eq!(sanitize_label(&once), once);
    }
    assert_eq!(sanitize_label("safe-Label_9"), "safe-Label_9");
}

#[test]
fn successive_auto_sessions_get_distinct_names() {
    let first = auto_session_name("fixture", 42, 1);
    let second = auto_session_name("fixture", 42, 2);
    let eleventh = auto_session_name("fixture", 42, 11);
    assert_eq!(first, "fixture-42-1");
    assert_eq!(second, "fixture-42-2");
    assert_ne!(first, second);
    assert_ne!(first, eleventh);
    assert_ne!(auto_session_name("fixture", 4, 21), auto_session_name("fixture", 42, 1));
}

#[test]
fn session_counter_counts_up_from_one() {
    let mut counter = SessionCounter::new();
    assert_eq!(counter.take(), 1);
    assert_eq!(counter.take(), 2);
    assert_eq!(counter.take(), 3);
    let mut last = SessionCounter { next: u64::MAX };
    assert_eq!(last.take(), u64::MAX);
    assert_eq!(last.next, 0);
}
