use std::time::Duration;
use vstd::prelude::*;

use crate::text::{decimal, decimal_string};
use crate::time::{duration_from_secs, seconds};

verus! {

/// Launch and timeout configuration for an out-of-process Bevy E2E session.
#[derive(Clone, Debug)]
pub struct E2eLaunchOptions {
    binary: String,
    args: Vec<String>,
    env: Vec<(String, String)>,
    startup_timeout: Duration,
    operation_timeout: Duration,
    shutdown_timeout: Duration,
    artifact_root: String,
    artifact_label: Option<String>,
}

/// The abstract content of a set of launch options.
pub struct LaunchOptionsView {
    pub binary: Seq<char>,
    pub args: Seq<Seq<char>>,
    pub env: Seq<(Seq<char>, Seq<char>)>,
    pub startup_timeout: Duration,
    pub operation_timeout: Duration,
    pub shutdown_timeout: Duration,
    pub artifact_root: Seq<char>,
    pub artifact_label: Option<Seq<char>>,
}

pub open spec fn string_views(v: Seq<String>) -> Seq<Seq<char>> {
    v.map_values(|s: String| s@)
}

pub open spec fn pair_views(v: Seq<(String, String)>) -> Seq<(Seq<char>, Seq<char>)> {
    v.map_values(|p: (String, String)| (p.0@, p.1@))
}

pub open spec fn option_view(o: Option<String>) -> Option<Seq<char>> {
    match o {
        Some(s) => Some(s@),
        None => None,
    }
}

impl View for E2eLaunchOptions {
    type V = LaunchOptionsView;

    closed spec fn view(&self) -> LaunchOptionsView {
        LaunchOptionsView {
            binary: self.binary@,
            args: string_views(self.args@),
            env: pair_views(self.env@),
            startup_timeout: self.startup_timeout,
            operation_timeout: self.operation_timeout,
            shutdown_timeout: self.shutdown_timeout,
            artifact_root: self.artifact_root@,
            artifact_label: option_view(self.artifact_label),
        }
    }
}

/// The default artifact root, `test_output`.
pub open spec fn default_artifact_root() -> Seq<char> {
    seq!['t', 'e', 's', 't', '_', 'o', 'u', 't', 'p', 'u', 't']
}

impl E2eLaunchOptions {
    /// Options for `binary` with no arguments, no extra environment, a 10 s
    /// startup timeout, a 5 s operation timeout, a 3 s shutdown timeout, the
    /// artifact root `test_output` and no artifact label.
    pub fn new(binary: &str) -> (res: Self)
        ensures
            res@.binary == binary@,
            res@.args == Seq::<Seq<char>>::empty(),
            res@.env == Seq::<(Seq<char>, Seq<char>)>::empty(),
            res@.startup_timeout == seconds(10),
            res@.operation_timeout == seconds(5),
            res@.shutdown_timeout == seconds(3),
            res@.artifact_root == default_artifact_root(),
            res@.artifact_label is None,
    {
        let root = String::from_str("test_output");
        proof {
            reveal_strlit("test_output");
        }
        let res = E2eLaunchOptions {
            binary: binary.to_owned(),
            args: Vec::new(),
            env: Vec::new(),
            startup_timeout: duration_from_secs(10),
            operation_timeout: duration_from_secs(5),
            shutdown_timeout: duration_from_secs(3),
            artifact_root: root,
            artifact_label: None,
        };
        assert(res@.args =~= Seq::<Seq<char>>::empty());
        assert(res@.env =~= Seq::<(Seq<char>, Seq<char>)>::empty());
        assert(res@.artifact_root =~= default_artifact_root());
        res
    }

    /// Appends one command-line argument.
    pub fn arg(self, arg: &str) -> (res: Self)
        ensures
            res@ == (LaunchOptionsView { args: self@.args.push(arg@), ..self@ }),
    {
        let mut res = self;
        res.args.push(arg.to_owned());
        assert(string_views(res.args@) =~= string_views(self.args@).push(arg@));
        res
    }

    /// Appends one environment variable; the harness's own variables still win.
    pub fn env(self, key: &str, value: &str) -> (res: Self)
        ensures
            res@ == (LaunchOptionsView { env: self@.env.push((key@, value@)), ..self@ }),
    {
        let mut res = self;
        res.env.push((key.to_owned(), value.to_owned()));
        assert(pair_views(res.env@) =~= pair_views(self.env@).push((key@, value@)));
        res
    }

    pub fn startup_timeout(self, timeout: Duration) -> (res: Self)
        ensures
            res@ == (LaunchOptionsView { startup_timeout: timeout, ..self@ }),
    {
        let mut res = self;
        res.startup_timeout = timeout;
        res
    }

    pub fn operation_timeout(self, timeout: Duration) -> (res: Self)
        ensures
            res@ == (LaunchOptionsView { operation_timeout: timeout, ..self@ }),
    {
        let mut res = self;
        res.operation_timeout = timeout;
        res
    }

    pub fn shutdown_timeout(self, timeout: Duration) -> (res: Self)
        ensures
            res@ == (LaunchOptionsView { shutdown_timeout: timeout, ..self@ }),
    {
        let mut res = self;
        res.shutdown_timeout = timeout;
        res
    }

    pub fn artifact_root(self, root: &str) -> (res: Self)
        ensures
            res@ == (LaunchOptionsView { artifact_root: root@, ..self@ }),
    {
        let mut res = self;
        res.artifact_root = root.to_owned();
        res
    }

    pub fn artifact_label(self, label: &str) -> (res: Self)
        ensures
            res@ == (LaunchOptionsView { artifact_label: Some(label@), ..self@ }),
    {
        let mut res = self;
        res.artifact_label = Some(label.to_owned());
        res
    }

    pub fn binary(&self) -> (res: &str)
        ensures
            res@ == self@.binary,
    {
        self.binary.as_str()
    }

    pub fn args(&self) -> (res: &[String])
        ensures
            string_views(res@) == self@.args,
    {
        self.args.as_slice()
    }

    pub fn env_vars(&self) -> (res: &[(String, String)])
        ensures
            pair_views(res@) == self@.env,
    {
        self.env.as_slice()
    }

    pub fn startup_timeout_value(&self) -> (res: Duration)
        ensures
            res == self@.startup_timeout,
    {
        self.startup_timeout
    }

    pub fn operation_timeout_value(&self) -> (res: Duration)
        ensures
            res == self@.operation_timeout,
    {
        self.operation_timeout
    }

    pub fn shutdown_timeout_value(&self) -> (res: Duration)
        ensures
            res == self@.shutdown_timeout,
    {
        self.shutdown_timeout
    }

    pub fn artifact_root_path(&self) -> (res: &str)
        ensures
            res@ == self@.artifact_root,
    {
        self.artifact_root.as_str()
    }

    pub fn artifact_label_value(&self) -> (res: Option<&str>)
        ensures
            match res {
                Some(s) => self@.artifact_label == Some(s@),
                None => self@.artifact_label is None,
            },
    {
        match &self.artifact_label {
            Some(s) => Some(s.as_str()),
            None => None,
        }
    }
}


/// The value a process sees for `key` when its environment is set pair by
/// pair in this order: the last pair with that key wins.
pub open spec fn effective_env(env: Seq<(Seq<char>, Seq<char>)>, key: Seq<char>) -> Option<Seq<char>>
    decreases env.len(),
{
    if env.len() == 0 {
        None
    } else if env.last().0 == key {
        Some(env.last().1)
    } else {
        effective_env(env.drop_last(), key)
    }
}

/// The variables the harness sets for its child after the caller's: the
/// runtime switch and the port the harness chose.
pub open spec fn framework_env(port: u16) -> Seq<(Seq<char>, Seq<char>)> {
    seq![("BEVY_E2E"@, "1"@), ("BRP_EXTRAS_PORT"@, decimal(port as nat))]
}

impl E2eLaunchOptions {
    /// The environment to set for the child, in order: the caller's variables,
    /// then `BEVY_E2E=1` and `BRP_EXTRAS_PORT=<port>`, which therefore win.
    pub fn child_env(&self, port: u16) -> (r: Vec<(String, String)>)
        ensures
            pair_views(r@) == self@.env + framework_env(port),
    {
        let n = self.env.len();
        let mut r: Vec<(String, String)> = Vec::new();
        let mut i: usize = 0;
        while i < n
            invariant
                n == self.env@.len(),
                i <= n,
                pair_views(r@) == pair_views(self.env@).take(i as int),
            decreases n - i,
        {
            let (k, v) = &self.env[i];
            let k2 = k.clone();
            let v2 = v.clone();
            assert(k2@ == self.env@[i as int].0@ && v2@ == self.env@[i as int].1@);
            let ghost prev = r@;
            r.push((k2, v2));
            assert(r@ == prev.push((k2, v2)));
            assert(pair_views(r@) =~= pair_views(self.env@).take(i + 1)) by {
                assert(pair_views(r@) =~= pair_views(prev).push((k2@, v2@)));
            }
            i = i + 1;
        }
        assert(pair_views(self.env@).take(n as int) =~= pair_views(self.env@));
        let ghost before = pair_views(r@);
        r.push((String::from_str("BEVY_E2E"), String::from_str("1")));
        r.push((String::from_str("BRP_EXTRAS_PORT"), decimal_string(port as u64)));
        proof {
            reveal_strlit("BEVY_E2E");
            reveal_strlit("1");
            reveal_strlit("BRP_EXTRAS_PORT");
            assert(pair_views(r@) =~= before + framework_env(port));
        }
        r
    }
}

/// Framework-owned variables always win over the caller's: whatever the
/// caller set, the child sees `BEVY_E2E=1` and the harness's port.
pub proof fn lemma_framework_env_wins(env: Seq<(Seq<char>, Seq<char>)>, port: u16)
    ensures
        effective_env(env + framework_env(port), "BEVY_E2E"@) == Some("1"@),
        effective_env(env + framework_env(port), "BRP_EXTRAS_PORT"@) == Some(decimal(port as nat)),
{
    reveal_strlit("BEVY_E2E");
    reveal_strlit("BRP_EXTRAS_PORT");
    reveal_with_fuel(effective_env, 3);
    let all = env + framework_env(port);
    assert(all.last() == ("BRP_EXTRAS_PORT"@, decimal(port as nat)));
    assert(all.drop_last().last() == ("BEVY_E2E"@, "1"@));
    assert("BRP_EXTRAS_PORT"@ != "BEVY_E2E"@) by {
        assert("BRP_EXTRAS_PORT"@.len() != "BEVY_E2E"@.len());
    }
}

/// Any other variable keeps the value the caller gave it last.
pub proof fn lemma_caller_env_kept(env: Seq<(Seq<char>, Seq<char>)>, port: u16, key: Seq<char>)
    requires
        key != "BEVY_E2E"@,
        key != "BRP_EXTRAS_PORT"@,
    ensures
        effective_env(env + framework_env(port), key) == effective_env(env, key),
{
    reveal_with_fuel(effective_env, 3);
    let all = env + framework_env(port);
    assert(all.drop_last().drop_last() =~= env);
    assert(all.last().0 != key);
    assert(all.drop_last().last().0 != key);
}

} // verus!
