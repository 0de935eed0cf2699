use vstd::prelude::*;

verus! {

/// The environment variable that switches the in-game runtime on.
pub open spec fn activation_key() -> Seq<char> {
    "BEVY_E2E"@
}

/// The runtime is active exactly when `BEVY_E2E` is set to `1`.
pub open spec fn activates(value: Option<String>) -> bool {
    match value {
        Some(v) => v@ == "1"@,
        None => false,
    }
}

/// Whether the in-game runtime should activate, given a lookup of
/// environment variables (it is asked for `BEVY_E2E` once).
pub fn runtime_enabled<F: Fn(&str) -> Option<String>>(lookup: F) -> (r: bool)
    requires
        forall|k: &str| #[trigger] call_requires(lookup, (k,)),
    ensures
        exists|k: &str, v: Option<String>|
            k@ == activation_key() && #[trigger] call_ensures(lookup, (k,), v) && r == activates(v),
{
    let key = "BEVY_E2E";
    proof {
        reveal_strlit("BEVY_E2E");
        reveal_strlit("1");
    }
    let value = lookup(key);
    let r = match &value {
        Some(v) => {
            let one = String::from_str("1");
            *v == one
        },
        None => false,
    };
    assert(call_ensures(lookup, (key,), value));
    r
}

/// What the in-game plugin does when it is built into an app.
#[derive(Clone, Copy, Debug, PartialEq, Eq)]
pub enum PluginSetup {
    /// `BEVY_E2E` is not `1`: the plugin configures nothing.
    Inactive,
    /// A separate HTTP transport is already registered: the build stops with
    /// [`http_transport_conflict_message`], since that transport would ignore
    /// the port the harness chose.
    RejectHttpTransport,
    /// Register `E2eId` and add the BRP extras transport on the chosen port.
    Install,
}

/// The plugin's decision, from whether the runtime is active and whether the
/// app already holds a `RemoteHttpPlugin`.
pub open spec fn plugin_setup_spec(active: bool, http_transport_added: bool) -> PluginSetup {
    if !active {
        PluginSetup::Inactive
    } else if http_transport_added {
        PluginSetup::RejectHttpTransport
    } else {
        PluginSetup::Install
    }
}

/// Decides what the plugin does when it is built.
pub fn plugin_setup(active: bool, http_transport_added: bool) -> (r: PluginSetup)
    ensures
        r == plugin_setup_spec(active, http_transport_added),
{
    if !active {
        PluginSetup::Inactive
    } else if http_transport_added {
        PluginSetup::RejectHttpTransport
    } else {
        PluginSetup::Install
    }
}

/// The text the plugin stops the game with when a `RemoteHttpPlugin` was
/// registered before it.
pub open spec fn http_transport_conflict_text() -> Seq<char> {
    "BevyE2EPlugin: `bevy::remote::http::RemoteHttpPlugin` is already registered. BrpExtrasPlugin would skip its own HTTP transport and ignore BRP_EXTRAS_PORT, so the harness would poll the wrong port and time out at startup. Remove the separately-added RemoteHttpPlugin and let BevyE2EPlugin own the BRP HTTP transport."@
}

/// The message of [`PluginSetup::RejectHttpTransport`].
pub fn http_transport_conflict_message() -> (s: String)
    ensures
        s@ == http_transport_conflict_text(),
{
    String::from_str(
        "BevyE2EPlugin: `bevy::remote::http::RemoteHttpPlugin` is already registered. BrpExtrasPlugin would skip its own HTTP transport and ignore BRP_EXTRAS_PORT, so the harness would poll the wrong port and time out at startup. Remove the separately-added RemoteHttpPlugin and let BevyE2EPlugin own the BRP HTTP transport.",
    )
}

} // verus!
