use bevy_e2e::{E2eId, E2eLaunchOptions};
use std::time::Duration;

#[test]
fn shared_id_and_client_options_are_stable() {
    assert_eq!(E2eId::new("player").value, "player");

    let options = E2eLaunchOptions::new("target/debug/game")
        .startup_timeout(Duration::from_secs(3))
        .operation_timeout(Duration::from_secs(4))
        .shutdown_timeout(Duration::from_secs(2))
        .artifact_root("target/e2e");

    assert_eq!(options.binary(), "target/debug/game");
    assert_eq!(options.startup_timeout_value(), Duration::from_secs(3));
    assert_eq!(options.operation_timeout_value(), Duration::from_secs(4));
    assert_eq!(options.shutdown_timeout_value(), Duration::from_secs(2));
}

#[test]
fn new_options_have_documented_defaults() {
    let options = E2eLaunchOptions::new("game");
    assert_eq!(options.binary(), "game");
    assert!(options.args().is_empty());
    assert!(options.env_vars().is_empty());
    assert_eq!(options.startup_timeout_value(), Duration::from_secs(10));
    assert_eq!(options.operation_timeout_value(), Duration::from_secs(5));
    assert_eq!(options.shutdown_timeout_value(), Duration::from_secs(3));
    assert_eq!(options.artifact_root_path(), "test_output");
    assert_eq!(options.artifact_label_value(), None);
}

#[test]
fn builders_append_and_replace() {
    let options = E2eLaunchOptions::new("game")
        .arg("--duplicate-id")
        .arg("--sleep-forever")
        .env("RUST_LOG", "info")
        .artifact_label("checkpoint")
        .artifact_label("final");
    assert_eq!(
        options.args(),
        &["--duplicate-id".to_owned(), "--sleep-forever".to_owned()]
    );
    assert_eq!(
        options.env_vars(),
        &[("RUST_LOG".to_owned(), "info".to_owned())]
    );
    assert_eq!(options.artifact_label_value(), Some("final"));
    let copy = options.clone();
    assert_eq!(copy.args().len(), 2);
}

#[test]
fn framework_env_comes_last_and_wins() {
    let options = E2eLaunchOptions::new("game")
        .env("BEVY_E2E", "0")
        .env("BRP_EXTRAS_PORT", "1");
    let env = options.child_env(15702);
    let pairs: Vec<(&str, &str)> = env.iter().map(|(k, v)| (k.as_str(), v.as_str())).collect();
    assert_eq!(
        pairs,
        vec![
            ("BEVY_E2E", "0"),
            ("BRP_EXTRAS_PORT", "1"),
            ("BEVY_E2E", "1"),
            ("BRP_EXTRAS_PORT", "15702"),
        ]
    );
}
