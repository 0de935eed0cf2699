use bevy_e2e::runtime::{http_transport_conflict_message, plugin_setup, runtime_enabled, PluginSetup};

#[test]
fn activation_requires_exact_one() {
    assert!(runtime_enabled(|key: &str| if key == "BEVY_E2E" {
        Some("1".into())
    } else {
        None
    }));
    assert!(!runtime_enabled(|_: &str| None));
    assert!(!runtime_enabled(|_: &str| Some("0".into())));
}

#[test]
fn activation_rejects_near_misses() {
    assert!(!runtime_enabled(|_: &str| Some("1 ".into())));
    assert!(!runtime_enabled(|_: &str| Some("true".into())));
    assert!(!runtime_enabled(|key: &str| if key == "BEVY_E2E_X" {
        Some("1".into())
    } else {
        None
    }));
}

#[test]
fn plugin_installs_only_when_active_and_transport_is_free() {
    assert_eq!(plugin_setup(false, false), PluginSetup::Inactive);
    assert_eq!(plugin_setup(false, true), PluginSetup::Inactive);
    assert_eq!(plugin_setup(true, true), PluginSetup::RejectHttpTransport);
    assert_eq!(plugin_setup(true, false), PluginSetup::Install);
    let message = http_transport_conflict_message();
    assert!(message.starts_with("BevyE2EPlugin: `bevy::remote::http::RemoteHttpPlugin` is already registered."));
    assert!(message.contains("ignore BRP_EXTRAS_PORT"));
}
