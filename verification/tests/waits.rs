use bevy_e2e::wait::{
    frame_count_value, frame_reading, wait_for_gone_step, wait_for_step, wait_until_step,
    FrameReading, FrameWait, PollStep,
};
use bevy_e2e::{Error, Json, Number};
use std::time::Duration;

fn timeout(operation: &str, t: Duration) -> PollStep {
    PollStep::Finish(Err(Error::Timeout { operation: operation.to_owned(), timeout: t }))
}

#[test]
fn wait_for_player_is_immediate() {
    let t = Duration::from_secs(5);
    assert_eq!(wait_for_step("player", Ok(true), false, t), PollStep::Finish(Ok(())));
}

#[test]
fn wait_for_missing_times_out() {
    let t = Duration::from_millis(300);
    assert_eq!(wait_for_step("missing", Ok(false), false, t), PollStep::Sleep);
    let step = wait_for_step("missing", Ok(false), true, t);
    assert!(matches!(step, PollStep::Finish(Err(Error::Timeout { .. }))), "got {step:?}");
    assert_eq!(step, timeout("wait_for(missing)", t));
}

#[test]
fn wait_for_gone_mirrors_wait_for() {
    let t = Duration::from_secs(1);
    assert_eq!(wait_for_gone_step("x", Ok(false), true, t), PollStep::Finish(Ok(())));
    assert_eq!(wait_for_gone_step("x", Ok(true), false, t), PollStep::Sleep);
    assert_eq!(wait_for_gone_step("x", Ok(true), true, t), timeout("wait_for_gone(x)", t));
    assert_eq!(
        wait_for_gone_step("x", Err(Error::AmbiguousSelector("other".to_owned())), false, t),
        PollStep::Finish(Err(Error::AmbiguousSelector("x".to_owned())))
    );
    let transport = || Error::Brp { method: "world.query".to_owned(), message: "refused".to_owned() };
    assert_eq!(
        wait_for_step("x", Err(transport()), false, t),
        PollStep::Finish(Err(transport()))
    );
}

#[test]
fn wait_until_success_and_timeout() {
    let t = Duration::from_millis(200);
    assert_eq!(wait_until_step(Ok(true), false, t), PollStep::Finish(Ok(())));
    let err = wait_until_step(Ok(false), true, t);
    assert!(matches!(err, PollStep::Finish(Err(Error::Timeout { .. }))), "got {err:?}");
    assert_eq!(err, timeout("wait_until", t));
    assert_eq!(wait_until_step(Ok(false), false, t), PollStep::Sleep);
}

#[test]
fn wait_frames_advances_diagnostics_count() {
    let t = Duration::from_secs(5);
    let mut wait = FrameWait::new(2);
    assert_eq!(wait.step(Ok(None), false, t), PollStep::Sleep);
    assert_eq!(wait.step(Ok(Some(10)), false, t), PollStep::Again);
    assert_eq!(wait.target, Some(12));
    assert_eq!(wait.step(Ok(Some(11)), false, t), PollStep::Sleep);
    assert_eq!(wait.step(Ok(Some(12)), false, t), PollStep::Finish(Ok(())));
    assert_eq!(wait.target, Some(12));
}

#[test]
fn wait_frames_times_out_and_saturates() {
    let t = Duration::from_millis(20);
    let mut baseline = FrameWait::new(1);
    assert_eq!(baseline.step(Ok(None), true, t), timeout("wait_frames(baseline frame_count)", t));
    let mut late = FrameWait::new(3);
    assert_eq!(late.step(Ok(Some(1)), true, t), PollStep::Again);
    assert_eq!(late.step(Ok(Some(2)), true, t), timeout("wait_frames(3)", t));
    let mut huge = FrameWait::new(u64::MAX);
    assert_eq!(huge.step(Ok(Some(5)), false, t), PollStep::Again);
    assert_eq!(huge.target, Some(u64::MAX));
    assert_eq!(huge.step(Ok(Some(u64::MAX)), false, t), PollStep::Finish(Ok(())));
}

#[test]
fn frame_count_is_read_like_serde_json() {
    let diag = |v: Json| Json::Object(vec![("frame_count".to_owned(), v)]);
    assert_eq!(frame_reading(&diag(Json::Number(Number::PosInt(42)))), FrameReading::Count(42));
    assert_eq!(
        frame_reading(&diag(Json::Number(Number::NegInt(-1)))),
        FrameReading::Count(u64::MAX)
    );
    assert_eq!(
        frame_reading(&diag(Json::Number(Number::Float(3.5f64.to_bits())))),
        FrameReading::Float(3.5f64.to_bits())
    );
    assert_eq!(frame_reading(&diag(Json::Null)), FrameReading::Missing);
    assert_eq!(frame_reading(&Json::Null), FrameReading::Missing);
    assert_eq!(frame_count_value(diag(Json::Number(Number::PosInt(1)))), Json::Number(Number::PosInt(1)));
    assert_eq!(frame_count_value(Json::Object(vec![])), Json::Null);
}
