use std::time::Duration;
use vstd::math::min;
use vstd::prelude::*;

use crate::error::{view_err, Error, ErrorView};
use crate::json::{field, Json, JsonView, Number};
use crate::text::{concat, decimal, decimal_string};

verus! {

/// What a polling wait does after one observation.
#[derive(Debug, PartialEq, Eq)]
pub enum PollStep {
    /// Stop and report this outcome.
    Finish(Result<(), Error>),
    /// Sleep one poll interval, then observe again.
    Sleep,
    /// Observe again at once.
    Again,
}

/// The abstract content of a [`PollStep`].
pub enum PollStepView {
    Finish(Result<(), ErrorView>),
    Sleep,
    Again,
}

impl View for PollStep {
    type V = PollStepView;

    open spec fn view(&self) -> PollStepView {
        match self {
            PollStep::Finish(r) => PollStepView::Finish(view_err(*r)),
            PollStep::Sleep => PollStepView::Sleep,
            PollStep::Again => PollStepView::Again,
        }
    }
}

/// The operation name of a wait on `id`: `{prefix}({id})`.
pub open spec fn wait_name(prefix: Seq<char>, id: Seq<char>) -> Seq<char> {
    prefix + "("@ + id + ")"@
}

/// One poll of a wait for `id` to be present (`want`) or gone (`!want`):
/// the awaited answer finishes the wait; the other answer retries until the
/// deadline has passed, then times out; ambiguity and every other error end it.
pub open spec fn presence_step(
    operation: Seq<char>,
    id: Seq<char>,
    want: bool,
    observed: Result<bool, ErrorView>,
    deadline_passed: bool,
    timeout: Duration,
) -> PollStepView {
    match observed {
        Ok(present) => if present == want {
            PollStepView::Finish(Ok(()))
        } else if deadline_passed {
            PollStepView::Finish(Err(ErrorView::Timeout { operation, timeout }))
        } else {
            PollStepView::Sleep
        },
        Err(ErrorView::AmbiguousSelector(_)) => PollStepView::Finish(
            Err(ErrorView::AmbiguousSelector(id)),
        ),
        Err(e) => PollStepView::Finish(Err(e)),
    }
}

fn presence_poll(
    prefix: &str,
    id: &str,
    want: bool,
    observed: Result<bool, Error>,
    deadline_passed: bool,
    timeout: Duration,
) -> (r: PollStep)
    ensures
        r@ == presence_step(wait_name(prefix@, id@), id@, want, view_err(observed), deadline_passed, timeout),
{
    match observed {
        Ok(present) => {
            if present == want {
                PollStep::Finish(Ok(()))
            } else if deadline_passed {
                proof {
                    reveal_strlit("(");
                    reveal_strlit(")");
                }
                let head = concat(prefix, "(");
                let head = concat(head.as_str(), id);
                let operation = concat(head.as_str(), ")");
                PollStep::Finish(Err(Error::Timeout { operation, timeout }))
            } else {
                PollStep::Sleep
            }
        },
        Err(Error::AmbiguousSelector(_)) => PollStep::Finish(
            Err(Error::AmbiguousSelector(id.to_owned())),
        ),
        Err(e) => PollStep::Finish(Err(e)),
    }
}

/// One poll of `wait_for(id)`, given what `exists(id)` answered and whether
/// the operation deadline has passed.
pub fn wait_for_step(id: &str, observed: Result<bool, Error>, deadline_passed: bool, timeout: Duration) -> (r: PollStep)
    ensures
        r@ == presence_step(wait_name("wait_for"@, id@), id@, true, view_err(observed), deadline_passed, timeout),
{
    proof {
        reveal_strlit("wait_for");
    }
    presence_poll("wait_for", id, true, observed, deadline_passed, timeout)
}

/// One poll of `wait_for_gone(id)`, given what `exists(id)` answered and
/// whether the operation deadline has passed.
pub fn wait_for_gone_step(id: &str, observed: Result<bool, Error>, deadline_passed: bool, timeout: Duration) -> (r: PollStep)
    ensures
        r@ == presence_step(wait_name("wait_for_gone"@, id@), id@, false, view_err(observed), deadline_passed, timeout),
{
    proof {
        reveal_strlit("wait_for_gone");
    }
    presence_poll("wait_for_gone", id, false, observed, deadline_passed, timeout)
}

/// One poll of `wait_until`: the predicate's `Ok(true)` finishes, its errors
/// end the wait, and `Ok(false)` retries until the deadline has passed.
pub open spec fn until_step(observed: Result<bool, ErrorView>, deadline_passed: bool, timeout: Duration) -> PollStepView {
    match observed {
        Ok(true) => PollStepView::Finish(Ok(())),
        Ok(false) => if deadline_passed {
            PollStepView::Finish(Err(ErrorView::Timeout { operation: "wait_until"@, timeout }))
        } else {
            PollStepView::Sleep
        },
        Err(e) => PollStepView::Finish(Err(e)),
    }
}

/// One poll of `wait_until`, given the predicate's answer.
pub fn wait_until_step(observed: Result<bool, Error>, deadline_passed: bool, timeout: Duration) -> (r: PollStep)
    ensures
        r@ == until_step(view_err(observed), deadline_passed, timeout),
{
    match observed {
        Ok(true) => PollStep::Finish(Ok(())),
        Ok(false) => {
            if deadline_passed {
                proof {
                    reveal_strlit("wait_until");
                }
                PollStep::Finish(Err(Error::Timeout { operation: String::from_str("wait_until"), timeout }))
            } else {
                PollStep::Sleep
            }
        },
        Err(e) => PollStep::Finish(Err(e)),
    }
}

/// A frame count read from the diagnostics: an integer, a float (by its bit
/// pattern, for the caller to convert), or nothing numeric.
#[derive(Debug, Clone, Copy, PartialEq, Eq, Structural)]
pub enum FrameReading {
    Count(u64),
    Float(u64),
    Missing,
}

/// The `frame_count` of a diagnostics reply, read as `as_u64`, then
/// `as_i64` cast to `u64`, then as a float.
pub open spec fn frame_reading_of(diagnostics: JsonView) -> FrameReading {
    match field(diagnostics, "frame_count"@) {
        Some(JsonView::Number(Number::PosInt(n))) => FrameReading::Count(n),
        Some(JsonView::Number(Number::NegInt(n))) => FrameReading::Count(n as u64),
        Some(JsonView::Number(Number::Float(bits))) => FrameReading::Float(bits),
        _ => FrameReading::Missing,
    }
}

/// Reads the `frame_count` of a diagnostics reply.
pub fn frame_reading(diagnostics: &Json) -> (r: FrameReading)
    ensures
        r == frame_reading_of(diagnostics@),
{
    match diagnostics.get("frame_count") {
        Some(v) => match v.as_number() {
            Some(Number::PosInt(n)) => FrameReading::Count(n),
            Some(Number::NegInt(n)) => FrameReading::Count(n as u64),
            Some(Number::Float(bits)) => FrameReading::Float(bits),
            None => FrameReading::Missing,
        },
        None => FrameReading::Missing,
    }
}

/// The `frame_count` of a diagnostics reply, or `null` when it has none.
pub fn frame_count_value(diagnostics: Json) -> (r: Json)
    ensures
        match field(diagnostics@, "frame_count"@) {
            Some(v) => r@ == v,
            None => r@ == JsonView::Null,
        },
{
    match diagnostics.into_field("frame_count") {
        Some(v) => v,
        None => Json::Null,
    }
}

/// The progress of `wait_frames(frames)`: no baseline yet, or the frame count to reach.
pub struct FrameWait {
    pub frames: u64,
    pub target: Option<u64>,
}

/// The operation name of the wait for a baseline frame count.
pub open spec fn baseline_operation() -> Seq<char> {
    "wait_frames(baseline frame_count)"@
}

/// One poll of `wait_frames`: the first numeric frame count fixes the target,
/// the baseline plus `frames` (saturating), and the wait reads again at once;
/// it finishes when a reading reaches the target; errors end it; other
/// readings retry until the deadline has passed, then time out.
pub open spec fn frame_step(
    frames: u64,
    target: Option<u64>,
    observed: Result<Option<u64>, ErrorView>,
    deadline_passed: bool,
    timeout: Duration,
) -> (Option<u64>, PollStepView) {
    match observed {
        Err(e) => (target, PollStepView::Finish(Err(e))),
        Ok(reading) => match target {
            None => match reading {
                Some(baseline) => (
                    Some(min(baseline + frames, u64::MAX as int) as u64),
                    PollStepView::Again,
                ),
                None => if deadline_passed {
                    (target, PollStepView::Finish(Err(ErrorView::Timeout { operation: baseline_operation(), timeout })))
                } else {
                    (target, PollStepView::Sleep)
                },
            },
            Some(t) => match reading {
                Some(current) if current >= t => (target, PollStepView::Finish(Ok(()))),
                _ => if deadline_passed {
                    (
                        target,
                        PollStepView::Finish(
                            Err(ErrorView::Timeout { operation: wait_name("wait_frames"@, decimal(frames as nat)), timeout }),
                        ),
                    )
                } else {
                    (target, PollStepView::Sleep)
                },
            },
        },
    }
}

impl FrameWait {
    /// A wait for `frames` more frames, before any baseline is read.
    pub fn new(frames: u64) -> (r: Self)
        ensures
            r.frames == frames,
            r.target is None,
    {
        FrameWait { frames, target: None }
    }

    /// Takes one diagnostics reading and says what the wait does next.
    pub fn step(&mut self, observed: Result<Option<u64>, Error>, deadline_passed: bool, timeout: Duration) -> (r: PollStep)
        ensures
            final(self).frames == old(self).frames,
            (final(self).target, r@) == frame_step(old(self).frames, old(self).target, view_err(observed), deadline_passed, timeout),
    {
        match observed {
            Err(e) => PollStep::Finish(Err(e)),
            Ok(reading) => match self.target {
                None => match reading {
                    Some(baseline) => {
                        self.target = Some(baseline.saturating_add(self.frames));
                        PollStep::Again
                    },
                    None => {
                        if deadline_passed {
                            proof {
                                reveal_strlit("wait_frames(baseline frame_count)");
                            }
                            PollStep::Finish(
                                Err(Error::Timeout { operation: String::from_str("wait_frames(baseline frame_count)"), timeout }),
                            )
                        } else {
                            PollStep::Sleep
                        }
                    },
                },
                Some(t) => {
                    let reached = match reading {
                        Some(current) => current >= t,
                        None => false,
                    };
                    if reached {
                        PollStep::Finish(Ok(()))
                    } else if deadline_passed {
                        proof {
                            reveal_strlit("wait_frames(");
                            reveal_strlit(")");
                        }
                        let head = concat("wait_frames(", decimal_string(self.frames).as_str());
                        let operation = concat(head.as_str(), ")");
                        assert(operation@ =~= wait_name("wait_frames"@, decimal(self.frames as nat))) by {
                            reveal_strlit("wait_frames");
                            reveal_strlit("(");
                        }
                        PollStep::Finish(Err(Error::Timeout { operation, timeout }))
                    } else {
                        PollStep::Sleep
                    }
                },
            },
        }
    }
}

/// A wait that has a target keeps it: later readings never move it.
pub proof fn lemma_frame_target_is_fixed(
    frames: u64,
    t: u64,
    observed: Result<Option<u64>, ErrorView>,
    deadline_passed: bool,
    timeout: Duration,
)
    ensures
        frame_step(frames, Some(t), observed, deadline_passed, timeout).0 == Some(t),
{
}

/// `wait_frames` finishes with success only on a reading that has reached
/// its target, and a presence wait only on the awaited answer.
pub proof fn lemma_waits_succeed_only_when_reached(
    frames: u64,
    target: Option<u64>,
    reading: Result<Option<u64>, ErrorView>,
    operation: Seq<char>,
    id: Seq<char>,
    want: bool,
    observed: Result<bool, ErrorView>,
    deadline_passed: bool,
    timeout: Duration,
)
    ensures
        frame_step(frames, target, reading, deadline_passed, timeout).1 == PollStepView::Finish(
            Ok(()),
        ) ==> (target is Some && reading is Ok && reading->Ok_0 is Some && reading->Ok_0->0
            >= target->0),
        presence_step(operation, id, want, observed, deadline_passed, timeout)
            == PollStepView::Finish(Ok(())) ==> observed == Ok::<bool, ErrorView>(want),
{
}

/// A wait times out only once its deadline has passed.
pub proof fn lemma_timeout_needs_deadline(
    operation: Seq<char>,
    id: Seq<char>,
    want: bool,
    frames: u64,
    target: Option<u64>,
    observed: Result<bool, ErrorView>,
    reading: Result<Option<u64>, ErrorView>,
    timeout: Duration,
)
    ensures
        !(presence_step(operation, id, want, observed, false, timeout) matches PollStepView::Finish(
            Err(ErrorView::Timeout { .. }),
        )) || observed matches Err(ErrorView::Timeout { .. }),
        !(until_step(observed, false, timeout) matches PollStepView::Finish(
            Err(ErrorView::Timeout { .. }),
        )) || observed matches Err(ErrorView::Timeout { .. }),
        !(frame_step(frames, target, reading, false, timeout).1 matches PollStepView::Finish(
            Err(ErrorView::Timeout { .. }),
        )) || reading matches Err(ErrorView::Timeout { .. }),
{
}


/// Once the deadline has passed no wait sleeps again: presence and predicate
/// waits finish at the next poll, and a frame wait finishes at the next poll
/// or, when that poll fixes its target, at the one after.
pub proof fn lemma_deadline_ends_waits(
    operation: Seq<char>,
    id: Seq<char>,
    want: bool,
    observed: Result<bool, ErrorView>,
    frames: u64,
    target: Option<u64>,
    reading: Result<Option<u64>, ErrorView>,
    next_reading: Result<Option<u64>, ErrorView>,
    timeout: Duration,
)
    ensures
        presence_step(operation, id, want, observed, true, timeout) is Finish,
        until_step(observed, true, timeout) is Finish,
        ({
            let (t1, s1) = frame_step(frames, target, reading, true, timeout);
            ||| s1 is Finish
            ||| s1 is Again && t1 is Some && frame_step(frames, t1, next_reading, true, timeout).1 is Finish
        }),
{
}

/// A failed observation ends every wait at once with that same failure: the
/// error of a `wait_until` predicate and a failed diagnostics read in
/// `wait_frames` are returned as they are, whether or not the deadline has
/// passed, and are never retried or turned into a timeout. A presence wait
/// does the same, except that an ambiguity is reported for the awaited selector.
pub proof fn lemma_errors_end_waits(
    e: ErrorView,
    frames: u64,
    target: Option<u64>,
    operation: Seq<char>,
    id: Seq<char>,
    want: bool,
    deadline_passed: bool,
    timeout: Duration,
)
    ensures
        until_step(Err(e), deadline_passed, timeout) == PollStepView::Finish(Err(e)),
        frame_step(frames, target, Err(e), deadline_passed, timeout) == (
            target,
            PollStepView::Finish(Err(e)),
        ),
        !(e is AmbiguousSelector) ==> presence_step(operation, id, want, Err(e), deadline_passed, timeout)
            == PollStepView::Finish(Err(e)),
        e is AmbiguousSelector ==> presence_step(operation, id, want, Err(e), deadline_passed, timeout)
            == PollStepView::Finish(Err(ErrorView::AmbiguousSelector(id))),
{
}

/// `wait_until` polls its predicate: `true` succeeds at once, `false` sleeps
/// and polls again while time is left and times out as `wait_until` after the
/// deadline, with the timeout it was given.
pub proof fn lemma_wait_until_polls_predicate(deadline_passed: bool, timeout: Duration)
    ensures
        until_step(Ok(true), deadline_passed, timeout) == PollStepView::Finish(Ok(())),
        until_step(Ok(false), false, timeout) == PollStepView::Sleep,
        until_step(Ok(false), true, timeout) == PollStepView::Finish(
            Err(ErrorView::Timeout { operation: "wait_until"@, timeout }),
        ),
{
}

/// `wait_frames(n)` measures from the first frame count it reads: that
/// reading fixes the target at the count plus `n` (saturating) and polls
/// again at once; afterwards any reading at or past the target succeeds and
/// a reading short of it sleeps while time is left.
pub proof fn lemma_wait_frames_counts_from_baseline(
    frames: u64,
    baseline: u64,
    t: u64,
    current: u64,
    timeout: Duration,
)
    ensures
        frame_step(frames, None, Ok(Some(baseline)), false, timeout) == (
            Some(if baseline + frames > u64::MAX { u64::MAX } else { (baseline + frames) as u64 }),
            PollStepView::Again,
        ),
        current >= t ==> frame_step(frames, Some(t), Ok(Some(current)), false, timeout).1
            == PollStepView::Finish(Ok(())),
        current >= t ==> frame_step(frames, Some(t), Ok(Some(current)), true, timeout).1
            == PollStepView::Finish(Ok(())),
        current < t ==> frame_step(frames, Some(t), Ok(Some(current)), false, timeout).1
            == PollStepView::Sleep,
{
}

} // verus!
