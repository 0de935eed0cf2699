use vstd::prelude::*;

verus! {

/// What the harness still holds of a spawned child: a live process handle,
/// and whether its exit status has already been observed and recorded.
#[derive(Clone, Copy, Debug, PartialEq, Eq)]
pub struct ChildState {
    pub has_handle: bool,
    pub exit_known: bool,
}

/// How a non-blocking exit check answers.
#[derive(Clone, Copy, Debug, PartialEq, Eq)]
pub enum ExitPoll {
    /// Return the recorded exit status; the system is not asked again.
    Recorded,
    /// The handle was released before any exit was seen: report no exit.
    NoHandle,
    /// Ask the system whether the child has exited, and record a status it reports.
    AskSystem,
}

/// The answer of a non-blocking exit check in state `s`.
pub open spec fn exit_poll_spec(s: ChildState) -> ExitPoll {
    if s.exit_known {
        ExitPoll::Recorded
    } else if !s.has_handle {
        ExitPoll::NoHandle
    } else {
        ExitPoll::AskSystem
    }
}

/// Decides how a non-blocking exit check answers.
pub fn exit_poll(s: ChildState) -> (r: ExitPoll)
    ensures
        r == exit_poll_spec(s),
{
    if s.exit_known {
        ExitPoll::Recorded
    } else if !s.has_handle {
        ExitPoll::NoHandle
    } else {
        ExitPoll::AskSystem
    }
}

/// The state after an exit check in which the system reported `exited`.
pub open spec fn after_exit_poll(s: ChildState, exited: bool) -> ChildState {
    match exit_poll_spec(s) {
        ExitPoll::AskSystem => ChildState { has_handle: s.has_handle, exit_known: exited },
        _ => s,
    }
}

/// What a reap does before it joins the output drains.
#[derive(Clone, Copy, Debug, PartialEq, Eq)]
pub enum ReapAction {
    /// The exit status is recorded: release the handle and return it.
    ReleaseRecorded,
    /// The handle is already gone and no exit was seen: there is nothing to wait for.
    NothingToWait,
    /// Take the handle, block until the child exits, and record its status.
    WaitForExit,
}

/// The action of a reap in state `s`.
pub open spec fn reap_action_spec(s: ChildState) -> ReapAction {
    if s.exit_known {
        ReapAction::ReleaseRecorded
    } else if !s.has_handle {
        ReapAction::NothingToWait
    } else {
        ReapAction::WaitForExit
    }
}

/// Decides what a reap does.
pub fn reap_action(s: ChildState) -> (r: ReapAction)
    ensures
        r == reap_action_spec(s),
{
    if s.exit_known {
        ReapAction::ReleaseRecorded
    } else if !s.has_handle {
        ReapAction::NothingToWait
    } else {
        ReapAction::WaitForExit
    }
}

/// The state after a reap that completed: the handle is released, and an exit
/// that was waited for is recorded.
pub open spec fn after_reap(s: ChildState) -> ChildState {
    match reap_action_spec(s) {
        ReapAction::WaitForExit => ChildState { has_handle: false, exit_known: true },
        _ => ChildState { has_handle: false, exit_known: s.exit_known },
    }
}

/// Whether dropping a child still has work to do: a live handle to kill and
/// reap, or an output drain still running.
pub fn drop_needs_cleanup(s: ChildState, drains_live: bool) -> (r: bool)
    ensures
        r == (s.has_handle || drains_live),
{
    s.has_handle || drains_live
}

/// One step of waiting, up to a deadline, for a child to exit.
#[derive(Clone, Copy, Debug, PartialEq, Eq)]
pub enum ExitWaitStep {
    /// An exit was seen: return it.
    Exited,
    /// The deadline passed with the child still running: report no exit.
    GiveUp,
    /// Sleep one poll interval and check again.
    Sleep,
}

/// The step of an exit wait after one check.
pub open spec fn exit_wait_step_spec(exited: bool, deadline_passed: bool) -> ExitWaitStep {
    if exited {
        ExitWaitStep::Exited
    } else if deadline_passed {
        ExitWaitStep::GiveUp
    } else {
        ExitWaitStep::Sleep
    }
}

/// Decides the step of an exit wait after one check.
pub fn exit_wait_step(exited: bool, deadline_passed: bool) -> (r: ExitWaitStep)
    ensures
        r == exit_wait_step_spec(exited, deadline_passed),
{
    if exited {
        ExitWaitStep::Exited
    } else if deadline_passed {
        ExitWaitStep::GiveUp
    } else {
        ExitWaitStep::Sleep
    }
}

/// One step of the bounded join of an output drain thread.
#[derive(Clone, Copy, Debug, PartialEq, Eq)]
pub enum DrainJoinStep {
    /// The drain finished: join its thread.
    Join,
    /// The shared deadline passed with the drain still blocked: detach it,
    /// keeping the bytes captured so far.
    Detach,
    /// Sleep briefly and look again.
    Sleep,
}

/// The step of a drain join after one look at the drain's completion flag.
pub open spec fn drain_join_step_spec(done: bool, deadline_passed: bool) -> DrainJoinStep {
    if done {
        DrainJoinStep::Join
    } else if deadline_passed {
        DrainJoinStep::Detach
    } else {
        DrainJoinStep::Sleep
    }
}

/// Decides the step of a drain join.
pub fn drain_join_step(done: bool, deadline_passed: bool) -> (r: DrainJoinStep)
    ensures
        r == drain_join_step_spec(done, deadline_passed),
{
    if done {
        DrainJoinStep::Join
    } else if deadline_passed {
        DrainJoinStep::Detach
    } else {
        DrainJoinStep::Sleep
    }
}

/// A recorded exit status is final: every later check returns it without
/// asking the system, and neither a check nor a reap forgets it.
pub proof fn lemma_exit_status_is_sticky(s: ChildState, exited: bool)
    requires
        s.exit_known,
    ensures
        exit_poll_spec(s) == ExitPoll::Recorded,
        after_exit_poll(s, exited).exit_known,
        after_reap(s).exit_known,
        reap_action_spec(s) == ReapAction::ReleaseRecorded,
{
}

/// Reaping is idempotent: after one completed reap the handle is gone, a
/// second reap never blocks on the child, and it changes nothing.
pub proof fn lemma_reap_is_idempotent(s: ChildState)
    ensures
        !after_reap(s).has_handle,
        reap_action_spec(after_reap(s)) != ReapAction::WaitForExit,
        after_reap(after_reap(s)) == after_reap(s),
        s.has_handle ==> after_reap(s).exit_known,
{
}

/// Waits never sleep past their deadline: once it has passed, an exit wait
/// and a drain join both stop at their next look; and neither gives up while
/// time is left or after seeing what it waits for.
pub proof fn lemma_bounded_waits_stop_at_deadline(
    exited: bool,
    done: bool,
    deadline_passed: bool,
)
    ensures
        exit_wait_step_spec(exited, true) != ExitWaitStep::Sleep,
        drain_join_step_spec(done, true) != DrainJoinStep::Sleep,
        exit_wait_step_spec(exited, deadline_passed) == ExitWaitStep::GiveUp ==> deadline_passed
            && !exited,
        drain_join_step_spec(done, deadline_passed) == DrainJoinStep::Detach ==> deadline_passed
            && !done,
{
}

} // verus!
