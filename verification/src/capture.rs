use std::collections::VecDeque;
use vstd::prelude::*;
use vstd::utf8::{decode_utf8, valid_utf8};

use crate::text::{concat, decimal, decimal_string};

verus! {

broadcast use vstd::std_specs::vecdeque::group_vec_dequeue_axioms;

/// Tail cap for each captured child output stream. Only the most recent tail
/// is retained, so a child that logs continuously cannot exhaust memory.
pub const MAX_CAPTURED_OUTPUT_BYTES: usize = 1024 * 1024;

/// The last `cap` elements of `s`, or all of `s` when it is not longer.
pub open spec fn tail(s: Seq<u8>, cap: nat) -> Seq<u8> {
    if s.len() > cap {
        s.subrange(s.len() - cap, s.len() as int)
    } else {
        s
    }
}

/// What `String::from_utf8_lossy` makes of a byte sequence.
pub uninterp spec fn utf8_lossy(bytes: Seq<u8>) -> Seq<char>;

/// Calls `std::string::String::from_utf8_lossy`: the result is named; on valid
/// UTF-8 it is the decoded text (std documents that valid input is borrowed as is).
#[verifier::external_body]
fn decode_lossy(bytes: &[u8]) -> (s: String)
    ensures
        s@ == utf8_lossy(bytes@),
        valid_utf8(bytes@) ==> s@ == decode_utf8(bytes@),
{
    String::from_utf8_lossy(bytes).into_owned()
}

/// The marker put before a snapshot of a stream whose older bytes were dropped.
pub open spec fn truncation_marker() -> Seq<char> {
    "... [output truncated, showing last "@ + decimal(MAX_CAPTURED_OUTPUT_BYTES as nat)
        + " bytes]\n"@
}

/// Bounded, tail-truncating capture of one child output stream.
pub struct CapturedOutput {
    pub data: VecDeque<u8>,
    pub truncated: bool,
}

impl CapturedOutput {
    /// An empty, untruncated capture.
    pub fn new() -> (res: Self)
        ensures
            res.data@ == Seq::<u8>::empty(),
            !res.truncated,
    {
        CapturedOutput { data: VecDeque::with_capacity(MAX_CAPTURED_OUTPUT_BYTES), truncated: false }
    }

    /// Appends `bytes`, keeping only the newest `MAX_CAPTURED_OUTPUT_BYTES`
    /// bytes and marking truncation when older bytes are dropped.
    pub fn push(&mut self, bytes: &[u8])
        ensures
            final(self).data@ == tail(old(self).data@ + bytes@, MAX_CAPTURED_OUTPUT_BYTES as nat),
            final(self).truncated == (old(self).truncated || old(self).data@.len() + bytes@.len()
                > MAX_CAPTURED_OUTPUT_BYTES),
    {
        let ghost joined = old(self).data@ + bytes@;
        let n = bytes.len();
        let mut i: usize = 0;
        while i < n
            invariant
                n == bytes@.len(),
                i <= n,
                self.data@ == old(self).data@ + bytes@.subrange(0, i as int),
                self.truncated == old(self).truncated,
            decreases n - i,
        {
            self.data.push_back(bytes[i]);
            assert(bytes@.subrange(0, i + 1) =~= bytes@.subrange(0, i as int).push(bytes@[i as int]));
            i = i + 1;
        }
        assert(bytes@.subrange(0, n as int) =~= bytes@);
        assert(self.data@ =~= joined);
        if self.data.len() > MAX_CAPTURED_OUTPUT_BYTES {
            self.truncated = true;
            let excess = self.data.len() - MAX_CAPTURED_OUTPUT_BYTES;
            let mut k: usize = 0;
            while k < excess
                invariant
                    excess == joined.len() - MAX_CAPTURED_OUTPUT_BYTES,
                    k <= excess,
                    self.data@ == joined.subrange(k as int, joined.len() as int),
                    self.truncated,
                decreases excess - k,
            {
                let _ = self.data.pop_front();
                k = k + 1;
            }
        }
    }

    /// The captured bytes decoded lossily as UTF-8, preceded by a truncation
    /// marker when older bytes were dropped.
    pub fn snapshot(&self) -> (res: String)
        ensures
            res@ == if self.truncated {
                truncation_marker() + utf8_lossy(self.data@)
            } else {
                utf8_lossy(self.data@)
            },
            valid_utf8(self.data@) ==> res@ == if self.truncated {
                truncation_marker() + decode_utf8(self.data@)
            } else {
                decode_utf8(self.data@)
            },
    {
        let len = self.data.len();
        let mut body: Vec<u8> = Vec::with_capacity(len);
        let mut i: usize = 0;
        while i < len
            invariant
                len == self.data@.len(),
                i <= len,
                body@ == self.data@.subrange(0, i as int),
            decreases len - i,
        {
            body.push(self.data[i]);
            assert(self.data@.subrange(0, i + 1) =~= self.data@.subrange(0, i as int).push(
                self.data@[i as int],
            ));
            i = i + 1;
        }
        assert(body@ =~= self.data@);
        let body = decode_lossy(body.as_slice());
        if self.truncated {
            let head = concat("... [output truncated, showing last ", decimal_string(
                MAX_CAPTURED_OUTPUT_BYTES as u64,
            ).as_str());
            let head = concat(head.as_str(), " bytes]\n");
            let res = concat(head.as_str(), body.as_str());
            proof {
                reveal_strlit("... [output truncated, showing last ");
                reveal_strlit(" bytes]\n");
            }
            assert(res@ =~= truncation_marker() + utf8_lossy(self.data@));
            res
        } else {
            body
        }
    }
}

/// Whatever is pushed, a capture never holds more than `MAX_CAPTURED_OUTPUT_BYTES` bytes.
pub proof fn lemma_capture_is_bounded(s: Seq<u8>)
    ensures
        tail(s, MAX_CAPTURED_OUTPUT_BYTES as nat).len() <= MAX_CAPTURED_OUTPUT_BYTES,
{
}

/// The bytes retained after two pushes are those retained after one push of
/// both chunks joined: the capture depends on the bytes, not on how they arrived.
pub proof fn lemma_capture_ignores_chunking(held: Seq<u8>, a: Seq<u8>, b: Seq<u8>)
    ensures
        tail(tail(held + a, MAX_CAPTURED_OUTPUT_BYTES as nat) + b, MAX_CAPTURED_OUTPUT_BYTES as nat)
            == tail(held + a + b, MAX_CAPTURED_OUTPUT_BYTES as nat),
        ((held.len() + a.len() > MAX_CAPTURED_OUTPUT_BYTES) || tail(
            held + a,
            MAX_CAPTURED_OUTPUT_BYTES as nat,
        ).len() + b.len() > MAX_CAPTURED_OUTPUT_BYTES) == (held.len() + a.len() + b.len()
            > MAX_CAPTURED_OUTPUT_BYTES),
{
    let c = MAX_CAPTURED_OUTPUT_BYTES as nat;
    let x = held + a;
    let lhs = tail(tail(x, c) + b, c);
    let rhs = tail(x + b, c);
    assert(lhs =~= rhs);
}

/// The newest bytes pushed, when they fit under the cap, are always the last
/// bytes held.
pub proof fn lemma_capture_keeps_newest(held: Seq<u8>, bytes: Seq<u8>)
    requires
        bytes.len() <= MAX_CAPTURED_OUTPUT_BYTES,
    ensures
        tail(held + bytes, MAX_CAPTURED_OUTPUT_BYTES as nat).subrange(
            tail(held + bytes, MAX_CAPTURED_OUTPUT_BYTES as nat).len() - bytes.len(),
            tail(held + bytes, MAX_CAPTURED_OUTPUT_BYTES as nat).len() as int,
        ) == bytes,
{
    let t = tail(held + bytes, MAX_CAPTURED_OUTPUT_BYTES as nat);
    assert(t.subrange(t.len() - bytes.len(), t.len() as int) =~= bytes);
}

} // verus!
