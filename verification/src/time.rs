use std::time::Duration;
use vstd::prelude::*;

verus! {

/// The `Duration` that `Duration::from_secs` builds from a whole number of seconds.
pub uninterp spec fn seconds(secs: u64) -> Duration;

/// Calls `std::time::Duration::from_secs`; the contract names its result, which
/// depends on `secs` alone.
#[verifier::external_body]
pub(crate) fn duration_from_secs(secs: u64) -> (d: Duration)
    ensures
        d == seconds(secs),
{
    Duration::from_secs(secs)
}

} // verus!

verus! {

/// `Duration` is `Copy`; its `Clone::clone` hands back the same value.
pub assume_specification[ <Duration as Clone>::clone ](d: &Duration) -> (res: Duration)
    ensures
        res == *d,
;

} // verus!

verus! {

/// What `Duration`'s `Debug` formatting writes for a duration, such as `5s` or `300ms`.
pub uninterp spec fn debug_text(d: Duration) -> Seq<char>;

/// Formats a duration with `Debug` (`format!("{:?}", d)`); the text is named.
#[verifier::external_body]
pub(crate) fn duration_debug(d: Duration) -> (s: String)
    ensures
        s@ == debug_text(d),
{
    format!("{:?}", d)
}

} // verus!
