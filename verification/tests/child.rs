use bevy_e2e::child::{
    drain_join_step, drop_needs_cleanup, exit_poll, exit_wait_step, reap_action, ChildState,
    DrainJoinStep, ExitPoll, ExitWaitStep, ReapAction,
};

fn state(has_handle: bool, exit_known: bool) -> ChildState {
    ChildState { has_handle, exit_known }
}

#[test]
fn exit_checks_return_a_recorded_status_without_asking_again() {
    assert_eq!(exit_poll(state(true, true)), ExitPoll::Recorded);
    assert_eq!(exit_poll(state(false, true)), ExitPoll::Recorded);
    assert_eq!(exit_poll(state(false, false)), ExitPoll::NoHandle);
    assert_eq!(exit_poll(state(true, false)), ExitPoll::AskSystem);
}

#[test]
fn reap_waits_only_for_a_live_unexited_child() {
    assert_eq!(reap_action(state(true, false)), ReapAction::WaitForExit);
    assert_eq!(reap_action(state(true, true)), ReapAction::ReleaseRecorded);
    assert_eq!(reap_action(state(false, true)), ReapAction::ReleaseRecorded);
    assert_eq!(reap_action(state(false, false)), ReapAction::NothingToWait);
}

#[test]
fn drop_cleans_up_only_what_is_left() {
    assert!(!drop_needs_cleanup(state(false, true), false));
    assert!(drop_needs_cleanup(state(false, true), true));
    assert!(drop_needs_cleanup(state(true, false), false));
}

#[test]
fn bounded_waits_stop_at_the_deadline() {
    assert_eq!(exit_wait_step(true, false), ExitWaitStep::Exited);
    assert_eq!(exit_wait_step(true, true), ExitWaitStep::Exited);
    assert_eq!(exit_wait_step(false, false), ExitWaitStep::Sleep);
    assert_eq!(exit_wait_step(false, true), ExitWaitStep::GiveUp);
    assert_eq!(drain_join_step(true, true), DrainJoinStep::Join);
    assert_eq!(drain_join_step(false, false), DrainJoinStep::Sleep);
    assert_eq!(drain_join_step(false, true), DrainJoinStep::Detach);
}
