use std::time::Duration;
use vstd::prelude::*;
use vstd::math::min;
use vstd::utf8::encode_utf8;

use crate::error::{Error, ErrorView, ExitReport};
use crate::text::{chars_within, concat, decimal, decimal_string, prefix_within};

verus! {

/// The most bytes of child output that a startup-timeout message quotes per stream.
pub const MAX_QUOTED_OUTPUT_BYTES: usize = 4096;

/// Child output as a startup-timeout message quotes it: whole when it fits in
/// `MAX_QUOTED_OUTPUT_BYTES` bytes of UTF-8, otherwise the longest prefix of
/// whole characters that fits, followed by a truncation marker.
pub open spec fn quoted_output(text: Seq<char>, byte_len: nat) -> Seq<char> {
    if byte_len <= MAX_QUOTED_OUTPUT_BYTES {
        text
    } else {
        text.take(chars_within(text, MAX_QUOTED_OUTPUT_BYTES as nat) as int) + "\n... [truncated]"@
    }
}

/// The length in bytes of the UTF-8 encoding of `text`.
pub fn byte_len(text: &str) -> (n: usize)
    ensures
        n == encode_utf8(text@).len(),
{
    text.as_bytes().len()
}

/// Shortens child output for an error message (see [`quoted_output`]).
pub fn truncate_output(text: &str) -> (r: String)
    ensures
        r@ == quoted_output(text@, encode_utf8(text@).len()),
{
    let n = byte_len(text);
    if n <= MAX_QUOTED_OUTPUT_BYTES {
        return text.to_owned();
    }
    let head = prefix_within(text, MAX_QUOTED_OUTPUT_BYTES);
    proof {
        reveal_strlit("\n... [truncated]");
    }
    concat(head.as_str(), "\n... [truncated]")
}

/// The operation text of a startup timeout: the byte lengths of the child's
/// stdout and stderr, then both quoted.
pub open spec fn startup_operation(stdout: Seq<char>, stdout_len: nat, stderr: Seq<char>, stderr_len: nat) -> Seq<char> {
    "startup (stdout_len="@ + decimal(stdout_len) + ", stderr_len="@ + decimal(stderr_len)
        + ")\n--- stdout ---\n"@ + quoted_output(stdout, stdout_len) + "\n--- stderr ---\n"@
        + quoted_output(stderr, stderr_len)
}

/// The error for a child that never answered the readiness probe in time.
pub fn startup_timeout_error(stdout: &str, stderr: &str, startup_timeout: Duration) -> (e: Error)
    ensures
        e@ == (ErrorView::Timeout {
            operation: startup_operation(stdout@, encode_utf8(stdout@).len(), stderr@, encode_utf8(stderr@).len()),
            timeout: startup_timeout,
        }),
{
    proof {
        reveal_strlit("startup (stdout_len=");
        reveal_strlit(", stderr_len=");
        reveal_strlit(")\n--- stdout ---\n");
        reveal_strlit("\n--- stderr ---\n");
    }
    let s = concat("startup (stdout_len=", decimal_string(byte_len(stdout) as u64).as_str());
    let s = concat(s.as_str(), ", stderr_len=");
    let s = concat(s.as_str(), decimal_string(byte_len(stderr) as u64).as_str());
    let s = concat(s.as_str(), ")\n--- stdout ---\n");
    let s = concat(s.as_str(), truncate_output(stdout).as_str());
    let s = concat(s.as_str(), "\n--- stderr ---\n");
    let s = concat(s.as_str(), truncate_output(stderr).as_str());
    Error::Timeout { operation: s, timeout: startup_timeout }
}

/// The longest a single readiness probe may take, 200 ms.
pub const PROBE_CAP_NANOS: u64 = 200_000_000;

/// What launch does next while it waits for the child to answer.
#[derive(Debug, Clone, Copy, PartialEq, Eq, Structural)]
pub enum ReadinessAction {
    /// The child has exited: hand back the session with the exited child.
    AdoptExitedChild,
    /// Send one readiness probe bounded by this many nanoseconds.
    Probe(u64),
    /// The deadline is reached without an answer: kill, reap, report.
    GiveUp,
}

/// The readiness decision before a probe: an exited child ends the wait; with
/// time left, probe for at most the time left, the operation timeout and 200 ms;
/// with none left, give up.
pub open spec fn readiness_action(child_exited: bool, remaining_nanos: u64, operation_nanos: u64) -> ReadinessAction {
    if child_exited {
        ReadinessAction::AdoptExitedChild
    } else if remaining_nanos > 0 {
        ReadinessAction::Probe(min(min(remaining_nanos as int, operation_nanos as int), PROBE_CAP_NANOS as int) as u64)
    } else {
        ReadinessAction::GiveUp
    }
}

/// Decides the next readiness action from whether the child has exited, the
/// nanoseconds left before the startup deadline and the operation timeout.
pub fn next_readiness_action(child_exited: bool, remaining_nanos: u64, operation_nanos: u64) -> (r: ReadinessAction)
    ensures
        r == readiness_action(child_exited, remaining_nanos, operation_nanos),
{
    if child_exited {
        ReadinessAction::AdoptExitedChild
    } else if remaining_nanos > 0 {
        let a = if remaining_nanos < operation_nanos { remaining_nanos } else { operation_nanos };
        ReadinessAction::Probe(if a < PROBE_CAP_NANOS { a } else { PROBE_CAP_NANOS })
    } else {
        ReadinessAction::GiveUp
    }
}

/// What launch does after a readiness probe.
#[derive(Debug, Clone, Copy, PartialEq, Eq, Structural)]
pub enum ProbeVerdict {
    /// The child answered: the session is ready.
    Ready,
    /// No answer and the deadline has passed: kill, reap, report a timeout.
    GiveUp,
    /// No answer yet: sleep one readiness interval and look again.
    Retry,
}

/// Any successful answer means ready; a failed probe gives up once the
/// deadline has passed and retries before.
pub open spec fn probe_verdict(answered: bool, deadline_passed: bool) -> ProbeVerdict {
    if answered {
        ProbeVerdict::Ready
    } else if deadline_passed {
        ProbeVerdict::GiveUp
    } else {
        ProbeVerdict::Retry
    }
}

/// Decides what follows a readiness probe.
pub fn judge_probe(answered: bool, deadline_passed: bool) -> (r: ProbeVerdict)
    ensures
        r == probe_verdict(answered, deadline_passed),
{
    if answered {
        ProbeVerdict::Ready
    } else if deadline_passed {
        ProbeVerdict::GiveUp
    } else {
        ProbeVerdict::Retry
    }
}

/// A probe never runs past the startup deadline, the operation timeout or 200 ms,
/// and a live child is probed exactly while time is left.
pub proof fn lemma_probe_is_bounded(child_exited: bool, remaining_nanos: u64, operation_nanos: u64)
    ensures
        readiness_action(child_exited, remaining_nanos, operation_nanos) matches ReadinessAction::Probe(t)
            ==> t <= remaining_nanos && t <= operation_nanos && t <= PROBE_CAP_NANOS,
        !child_exited ==> (readiness_action(child_exited, remaining_nanos, operation_nanos) is Probe
            <==> remaining_nanos > 0),
{
}

/// The steps of a graceful shutdown, as far as they have gone.
#[derive(Debug, Clone, Copy, PartialEq, Eq, Structural)]
pub enum ShutdownStage {
    /// Nothing done yet.
    Start,
    /// The child was checked; it had or had not exited.
    Checked(bool),
    /// The game was asked over BRP to shut down.
    Asked,
    /// The shutdown timeout was waited out; the child had or had not exited.
    Waited(bool),
    /// The child was killed.
    Killed,
    /// The child was reaped.
    Reaped,
}

/// The next step of a graceful shutdown.
#[derive(Debug, Clone, Copy, PartialEq, Eq, Structural)]
pub enum ShutdownAction {
    /// Already shut down: nothing to do.
    Finish,
    CheckChild,
    AskToExit,
    AwaitExit,
    Kill,
    Reap,
    /// Record that the session is shut down and finish.
    MarkShutDown,
}

/// Graceful shutdown: BRP shutdown, wait, kill only if still running, reap,
/// then mark shut down. A session already shut down does nothing.
pub open spec fn shutdown_action(shut_down: bool, stage: ShutdownStage) -> ShutdownAction {
    match stage {
        ShutdownStage::Start => if shut_down {
            ShutdownAction::Finish
        } else {
            ShutdownAction::CheckChild
        },
        ShutdownStage::Checked(exited) => if exited {
            ShutdownAction::Reap
        } else {
            ShutdownAction::AskToExit
        },
        ShutdownStage::Asked => ShutdownAction::AwaitExit,
        ShutdownStage::Waited(exited) => if exited {
            ShutdownAction::Reap
        } else {
            ShutdownAction::Kill
        },
        ShutdownStage::Killed => ShutdownAction::Reap,
        ShutdownStage::Reaped => ShutdownAction::MarkShutDown,
    }
}

/// Decides the next step of a graceful shutdown.
pub fn next_shutdown_action(shut_down: bool, stage: ShutdownStage) -> (r: ShutdownAction)
    ensures
        r == shutdown_action(shut_down, stage),
{
    match stage {
        ShutdownStage::Start => if shut_down {
            ShutdownAction::Finish
        } else {
            ShutdownAction::CheckChild
        },
        ShutdownStage::Checked(exited) => if exited {
            ShutdownAction::Reap
        } else {
            ShutdownAction::AskToExit
        },
        ShutdownStage::Asked => ShutdownAction::AwaitExit,
        ShutdownStage::Waited(exited) => if exited {
            ShutdownAction::Reap
        } else {
            ShutdownAction::Kill
        },
        ShutdownStage::Killed => ShutdownAction::Reap,
        ShutdownStage::Reaped => ShutdownAction::MarkShutDown,
    }
}

/// The stage that a shutdown action leads to, given what it observed.
pub open spec fn stage_after(action: ShutdownAction, exited: bool) -> ShutdownStage {
    match action {
        ShutdownAction::CheckChild => ShutdownStage::Checked(exited),
        ShutdownAction::AskToExit => ShutdownStage::Asked,
        ShutdownAction::AwaitExit => ShutdownStage::Waited(exited),
        ShutdownAction::Kill => ShutdownStage::Killed,
        ShutdownAction::Reap => ShutdownStage::Reaped,
        _ => ShutdownStage::Reaped,
    }
}

/// Shutdown is idempotent and never kills a child that exited on its own: a
/// shut-down session does nothing; a kill follows only a wait that did not
/// see the child exit; the session is marked shut down only after a reap.
pub proof fn lemma_shutdown_order(shut_down: bool, stage: ShutdownStage)
    ensures
        shut_down ==> shutdown_action(shut_down, ShutdownStage::Start) == ShutdownAction::Finish,
        shutdown_action(shut_down, stage) == ShutdownAction::Kill ==> stage == ShutdownStage::Waited(false),
        shutdown_action(shut_down, stage) == ShutdownAction::MarkShutDown ==> stage == ShutdownStage::Reaped,
        shutdown_action(shut_down, stage) == ShutdownAction::Finish ==> shut_down && stage == ShutdownStage::Start,
{
}

/// From a session not yet shut down, every path reaches the reap and then
/// the mark, in at most six steps.
pub proof fn lemma_shutdown_completes(e1: bool, e2: bool)
    ensures
        ({
            let a1 = shutdown_action(false, ShutdownStage::Start);
            let s1 = stage_after(a1, e1);
            let a2 = shutdown_action(false, s1);
            let s2 = stage_after(a2, e2);
            let a3 = shutdown_action(false, s2);
            let s3 = stage_after(a3, false);
            let a4 = shutdown_action(false, s3);
            let s4 = stage_after(a4, false);
            let a5 = shutdown_action(false, s4);
            let s5 = stage_after(a5, false);
            let a6 = shutdown_action(false, s5);
            ||| a2 == ShutdownAction::Reap && a3 == ShutdownAction::MarkShutDown
            ||| a4 == ShutdownAction::Reap && a5 == ShutdownAction::MarkShutDown
            ||| a5 == ShutdownAction::Reap && a6 == ShutdownAction::MarkShutDown
        }),
{
}

/// The error for a session whose child exited before the test ran: the exit
/// report, or a configuration error when no exit status could be read.
pub open spec fn exited_child_error(status: Option<(Option<i32>, Seq<char>)>) -> ErrorView {
    match status {
        Some((code, description)) => ErrorView::ChildExited { code, description },
        None => ErrorView::Configuration("child reported not running but no exit status"@),
    }
}

/// The report of an exit status, by view.
pub open spec fn report_view(r: Option<ExitReport>) -> Option<(Option<i32>, Seq<char>)> {
    match r {
        Some(r) => Some((r.code, r.description@)),
        None => None,
    }
}

/// Builds the error for a child that exited before the test ran.
pub fn child_exited_error(status: Option<ExitReport>) -> (e: Error)
    ensures
        e@ == exited_child_error(report_view(status)),
{
    match status {
        Some(report) => Error::ChildExited(report),
        None => {
            proof {
                reveal_strlit("child reported not running but no exit status");
            }
            Error::Configuration(String::from_str("child reported not running but no exit status"))
        },
    }
}

/// What `run` does when the child is found dead before the test runs.
pub enum DeadChild {
    /// No exit status could be read: return this error at once, capturing nothing.
    ReportNow(Error),
    /// The exit status was read: capture a failure bundle, shut down, then
    /// return this error.
    CaptureThenReport(Error),
}

/// Decides how `run` reports a child that exited before the test ran: only
/// a child whose exit status was read gets a failure bundle.
pub fn dead_child_outcome(status: Option<ExitReport>) -> (r: DeadChild)
    ensures
        match r {
            DeadChild::ReportNow(e) => status is None && e@ == exited_child_error(None),
            DeadChild::CaptureThenReport(e) => status is Some && e@ == exited_child_error(
                report_view(status),
            ),
        },
{
    let captured = status.is_some();
    let e = child_exited_error(status);
    if captured {
        DeadChild::CaptureThenReport(e)
    } else {
        DeadChild::ReportNow(e)
    }
}

/// The message of a panic payload that is a string, or a fixed text otherwise.
pub open spec fn panic_text(payload: Option<Seq<char>>) -> Seq<char> {
    match payload {
        Some(s) => s,
        None => "panic"@,
    }
}

/// The text recorded for a test that panicked with `payload` (when it was a string).
pub fn panic_message(payload: Option<&str>) -> (r: String)
    ensures
        r@ == panic_text(match payload {
            Some(s) => Some(s@),
            None => None,
        }),
{
    match payload {
        Some(s) => s.to_owned(),
        None => {
            proof {
                reveal_strlit("panic");
            }
            String::from_str("panic")
        },
    }
}

/// The last path component of a file path without its extension, as
/// `Path::file_stem` reads it (lossily as UTF-8).
pub uninterp spec fn path_file_stem(path: Seq<char>) -> Option<Seq<char>>;

/// Calls `std::path::Path::file_stem` on `path`; the result is named.
#[verifier::external_body]
fn file_stem(path: &str) -> (r: Option<String>)
    ensures
        match r {
            Some(s) => path_file_stem(path@) == Some(s@),
            None => path_file_stem(path@) is None,
        },
{
    match std::path::Path::new(path).file_stem() {
        Some(stem) => Some(stem.to_string_lossy().into_owned()),
        None => None,
    }
}

/// The name under which a session's artifacts fall back to: the binary's
/// file stem, or `game` when it has none.
pub open spec fn stem_or_game(stem: Option<Seq<char>>) -> Seq<char> {
    match stem {
        Some(s) => s,
        None => "game"@,
    }
}

/// The binary's file stem, or `game`.
pub fn binary_stem(binary: &str) -> (r: String)
    ensures
        r@ == stem_or_game(path_file_stem(binary@)),
{
    match file_stem(binary) {
        Some(s) => s,
        None => {
            proof {
                reveal_strlit("game");
            }
            String::from_str("game")
        },
    }
}

} // verus!

verus! {

/// The `extras` method that reports diagnostics; any answer means the game is ready.
pub fn diagnostics_method_name() -> (r: &'static str)
    ensures
        r@ == "brp_extras/get_diagnostics"@,
{
    proof {
        reveal_strlit("brp_extras/get_diagnostics");
    }
    "brp_extras/get_diagnostics"
}

/// The `extras` method that asks the game to exit.
pub fn shutdown_method_name() -> (r: &'static str)
    ensures
        r@ == "brp_extras/shutdown"@,
{
    proof {
        reveal_strlit("brp_extras/shutdown");
    }
    "brp_extras/shutdown"
}

/// The `extras` method that writes a screenshot to a file.
pub fn screenshot_method_name() -> (r: &'static str)
    ensures
        r@ == "brp_extras/screenshot"@,
{
    proof {
        reveal_strlit("brp_extras/screenshot");
    }
    "brp_extras/screenshot"
}

/// Empty call parameters, `{}`.
pub fn empty_params() -> (r: crate::json::Json)
    ensures
        r@ == crate::json::JsonView::Object(Seq::empty()),
{
    let fields: Vec<(String, crate::json::Json)> = Vec::new();
    let r = crate::json::Json::object(fields);
    assert(crate::json::members_view(fields@) =~= Seq::empty());
    r
}

} // verus!

verus! {

/// What `run` reports: the test's own failure when it failed, whatever the
/// cleanup did; otherwise the outcome of the shutdown.
pub open spec fn run_outcome(test: Result<(), ErrorView>, shutdown: Result<(), ErrorView>) -> Result<(), ErrorView> {
    match test {
        Err(e) => Err(e),
        Ok(()) => shutdown,
    }
}

/// Combines the test's result with the shutdown's: a test failure is kept.
pub fn run_result(test: Result<(), Error>, shutdown: Result<(), Error>) -> (r: Result<(), Error>)
    ensures
        crate::error::view_err(r) == run_outcome(crate::error::view_err(test), crate::error::view_err(shutdown)),
{
    match test {
        Err(e) => Err(e),
        Ok(()) => shutdown,
    }
}

/// The text a failure bundle records for a test result: its error's message,
/// or nothing for a success, which gets no failure bundle.
pub fn failure_text(test: &Result<(), Error>) -> (r: Option<String>)
    ensures
        match test {
            Ok(()) => r is None,
            Err(e) => r matches Some(t) && t@ == crate::error::error_text(e@),
        },
{
    match test {
        Ok(()) => None,
        Err(e) => Some(e.message()),
    }
}

/// Cleanup and diagnostic failures never replace the primary failure: a
/// failed test is reported with its own error, and a passing test reports
/// the shutdown's error only.
pub proof fn lemma_primary_failure_kept(test: Result<(), ErrorView>, shutdown: Result<(), ErrorView>)
    ensures
        test is Err ==> run_outcome(test, shutdown) == test,
        test is Ok ==> run_outcome(test, shutdown) == shutdown,
{
}

} // verus!
