use vstd::prelude::*;
use vstd::utf8::{
    encode_scalar, encode_utf8, encode_utf8_first_scalar, encode_utf8_valid_utf8, is_char_boundary,
    length_of_first_scalar, pop_first_scalar, valid_utf8,
};

verus! {

/// The character of a decimal digit.
pub open spec fn digit_char(d: nat) -> char
    recommends
        d < 10,
{
    (48 + d) as char
}

/// The decimal rendering of a natural number, without sign or leading zeros.
pub open spec fn decimal(n: nat) -> Seq<char>
    decreases n,
{
    if n < 10 {
        seq![digit_char(n)]
    } else {
        decimal(n / 10).push(digit_char(n % 10))
    }
}

/// Calls `std::string::String::push`: appends one character.
#[verifier::external_body]
pub(crate) fn push_char(s: &mut String, c: char)
    ensures
        final(s)@ == old(s)@.push(c),
{
    s.push(c)
}

fn digit(d: u64) -> (c: char)
    requires
        d < 10,
    ensures
        c == digit_char(d as nat),
{
    let b: u8 = 48u8 + (d as u8);
    b as char
}

fn append_decimal(s: &mut String, n: u64)
    ensures
        final(s)@ == old(s)@ + decimal(n as nat),
    decreases n,
{
    if n >= 10 {
        append_decimal(s, n / 10);
    }
    push_char(s, digit(n % 10));
    proof {
        if n < 10 {
            assert(n % 10 == n);
        }
    }
    assert(final(s)@ =~= old(s)@ + decimal(n as nat)) by {
        if n >= 10 {
            assert(decimal(n as nat) == decimal((n / 10) as nat).push(digit_char((n % 10) as nat)));
        }
    }
}

/// The decimal rendering of `n`, as `n.to_string()` writes it.
pub fn decimal_string(n: u64) -> (s: String)
    ensures
        s@ == decimal(n as nat),
{
    let mut s = String::new();
    append_decimal(&mut s, n);
    assert(s@ =~= decimal(n as nat));
    s
}

/// Appends `b` to `a`.
pub fn concat(a: &str, b: &str) -> (s: String)
    ensures
        s@ == a@ + b@,
{
    let mut s = a.to_owned();
    s.append(b);
    s
}

} // verus!

verus! {

/// The number of bytes in the UTF-8 encoding of `c`.
pub open spec fn utf8_width(c: char) -> nat {
    encode_scalar(c as u32).len()
}

/// How many leading characters of `s` fit, whole, in `budget` bytes of UTF-8.
pub open spec fn chars_within(s: Seq<char>, budget: nat) -> nat
    decreases s.len(),
{
    if s.len() == 0 {
        0
    } else if utf8_width(s[0]) > budget {
        0
    } else {
        1 + chars_within(s.drop_first(), (budget - utf8_width(s[0])) as nat)
    }
}

/// `char::len_utf8`, written out over the code point ranges of UTF-8.
pub fn char_width(c: char) -> (w: usize)
    ensures
        w == utf8_width(c),
        1 <= w <= 4,
{
    proof {
        vstd::utf8::char_is_scalar(c);
    }
    let v = c as u32;
    if v <= 0x7F {
        1
    } else if v <= 0x7FF {
        2
    } else if v <= 0xFFFF {
        3
    } else {
        4
    }
}

/// The longest prefix of `text` whose UTF-8 encoding fits in `budget` bytes.
pub fn prefix_within(text: &str, budget: usize) -> (res: String)
    ensures
        res@ == text@.take(chars_within(text@, budget as nat) as int),
{
    let n = text.unicode_len();
    let mut res = String::new();
    let mut i: usize = 0;
    let mut left: usize = budget;
    assert(text@.skip(0) =~= text@);
    loop
        invariant
            n == text@.len(),
            i <= n,
            left <= budget,
            res@ == text@.take(i as int),
            chars_within(text@, budget as nat) == i + chars_within(text@.skip(i as int), left as nat),
        ensures
            res@ == text@.take(chars_within(text@, budget as nat) as int),
        decreases n - i,
    {
        if i >= n {
            assert(text@.skip(i as int).len() == 0);
            break;
        }
        let c = text.get_char(i);
        let w = char_width(c);
        assert(text@.skip(i as int)[0] == c);
        if w > left {
            break;
        }
        assert(text@.skip(i as int).drop_first() =~= text@.skip(i + 1));
        push_char(&mut res, c);
        assert(text@.take(i + 1) =~= text@.take(i as int).push(c));
        i = i + 1;
        left = left - w;
    }
    res
}

} // verus!

verus! {

/// The characters of `s`, in order.
pub fn chars_of(s: &str) -> (v: Vec<char>)
    ensures
        v@ == s@,
{
    let mut v: Vec<char> = Vec::new();
    for c in it: s.chars()
        invariant
            it.seq() == s@,
            v@ == it.seq().take(it.index() as int),
    {
        assert(it.seq().take(it.index() + 1) =~= it.seq().take(it.index() as int).push(c));
        v.push(c);
    }
    assert(v@ =~= s@);
    v
}

/// `needle` occurs in `hay` starting at position `i`.
pub open spec fn occurs_at(hay: Seq<char>, needle: Seq<char>, i: int) -> bool {
    0 <= i && i + needle.len() <= hay.len() && hay.subrange(i, i + needle.len()) == needle
}

/// `needle` occurs somewhere in `hay`, as `str::contains` finds it.
pub open spec fn contains_text(hay: Seq<char>, needle: Seq<char>) -> bool {
    exists|i: int| occurs_at(hay, needle, i)
}

fn matches_at(hay: &Vec<char>, needle: &Vec<char>, i: usize) -> (r: bool)
    requires
        i + needle@.len() <= hay@.len(),
    ensures
        r == occurs_at(hay@, needle@, i as int),
{
    let m = needle.len();
    let hl = hay.len();
    let mut j: usize = 0;
    while j < m
        invariant
            m == needle@.len(),
            hl == hay@.len(),
            i + m <= hay@.len(),
            j <= m,
            forall|k: int| 0 <= k < j ==> hay@[i + k] == needle@[k],
        decreases m - j,
    {
        if hay[i + j] != needle[j] {
            assert(hay@.subrange(i as int, i + m)[j as int] != needle@[j as int]);
            return false;
        }
        j = j + 1;
    }
    assert(hay@.subrange(i as int, i + m) =~= needle@);
    true
}

/// Whether `needle` occurs in `hay`.
pub fn contains(hay: &str, needle: &str) -> (r: bool)
    ensures
        r == contains_text(hay@, needle@),
{
    let h = chars_of(hay);
    let n = chars_of(needle);
    if n.len() > h.len() {
        assert forall|i: int| !occurs_at(hay@, needle@, i) by {}
        return false;
    }
    let last = h.len() - n.len();
    let mut i: usize = 0;
    loop
        invariant
            h@ == hay@,
            n@ == needle@,
            last == h@.len() - n@.len(),
            i <= last,
            forall|k: int| 0 <= k < i ==> !occurs_at(hay@, needle@, k),
        ensures
            forall|k: int| 0 <= k <= last ==> !occurs_at(hay@, needle@, k),
        decreases last - i,
    {
        if matches_at(&h, &n, i) {
            return true;
        }
        if i == last {
            break;
        }
        i = i + 1;
    }
    assert forall|k: int| !occurs_at(hay@, needle@, k) by {
        if 0 <= k <= last {
        }
    }
    false
}

/// Whether two texts are equal.
pub fn same_text(a: &str, b: &str) -> (r: bool)
    ensures
        r == (a@ == b@),
{
    let a = a.to_owned();
    let b = b.to_owned();
    a == b
}

/// Whether `text` starts with `prefix`.
pub fn starts_with(text: &str, prefix: &str) -> (r: bool)
    ensures
        r == (prefix@.len() <= text@.len() && text@.subrange(0, prefix@.len() as int) == prefix@),
{
    let h = chars_of(text);
    let n = chars_of(prefix);
    if n.len() > h.len() {
        return false;
    }
    matches_at(&h, &n, 0)
}

} // verus!

verus! {

proof fn lemma_encode_take_step(s: Seq<char>, k: int)
    requires
        1 <= k <= s.len(),
    ensures
        encode_utf8(s.take(k)).len() == utf8_width(s[0]) + encode_utf8(s.drop_first().take(k - 1)).len(),
{
    let t = s.take(k);
    assert(t[0] == s[0]);
    assert(t.drop_first() =~= s.drop_first().take(k - 1));
}

/// The prefix that [`chars_within`] counts is the longest prefix of whole
/// characters whose UTF-8 encoding fits in `budget` bytes.
pub proof fn lemma_chars_within_is_longest_fitting_prefix(s: Seq<char>, budget: nat)
    ensures
        chars_within(s, budget) <= s.len(),
        encode_utf8(s.take(chars_within(s, budget) as int)).len() <= budget,
        chars_within(s, budget) < s.len() ==> encode_utf8(
            s.take(chars_within(s, budget) as int + 1),
        ).len() > budget,
    decreases s.len(),
{
    let k = chars_within(s, budget);
    if s.len() == 0 {
        assert(s.take(0) =~= Seq::<char>::empty());
    } else if utf8_width(s[0]) > budget {
        assert(s.take(0) =~= Seq::<char>::empty());
        lemma_encode_take_step(s, 1);
    } else {
        let rest = s.drop_first();
        let b2 = (budget - utf8_width(s[0])) as nat;
        lemma_chars_within_is_longest_fitting_prefix(rest, b2);
        lemma_encode_take_step(s, k as int);
        if k < s.len() {
            lemma_encode_take_step(s, k as int + 1);
        }
    }
}

} // verus!

verus! {

proof fn lemma_encode_split_first(s: Seq<char>)
    requires
        s.len() > 0,
    ensures
        valid_utf8(encode_utf8(s)),
        valid_utf8(encode_utf8(s.drop_first())),
        length_of_first_scalar(encode_utf8(s)) == utf8_width(s[0]),
        pop_first_scalar(encode_utf8(s)) == encode_utf8(s.drop_first()),
        encode_utf8(s).len() == utf8_width(s[0]) + encode_utf8(s.drop_first()).len(),
{
    encode_utf8_first_scalar(s);
    encode_utf8_valid_utf8(s);
    encode_utf8_valid_utf8(s.drop_first());
    let bytes = encode_utf8(s);
    assert(pop_first_scalar(bytes) =~= encode_utf8(s.drop_first()));
}

proof fn lemma_encode_push_len(a: Seq<char>, c: char)
    ensures
        encode_utf8(a.push(c)).len() == encode_utf8(a).len() + utf8_width(c),
    decreases a.len(),
{
    let p = a.push(c);
    assert(p[0] == if a.len() == 0 { c } else { a[0] });
    if a.len() == 0 {
        assert(p.drop_first() =~= Seq::<char>::empty());
        assert(encode_utf8(p.drop_first()).len() == 0);
        assert(encode_utf8(a).len() == 0);
    } else {
        assert(p.drop_first() =~= a.drop_first().push(c));
        lemma_encode_push_len(a.drop_first(), c);
    }
}

proof fn lemma_prefix_len_monotone(s: Seq<char>, k1: int, k2: int)
    requires
        0 <= k1 <= k2 <= s.len(),
    ensures
        encode_utf8(s.take(k1)).len() <= encode_utf8(s.take(k2)).len(),
        k1 < k2 ==> encode_utf8(s.take(k1 + 1)).len() <= encode_utf8(s.take(k2)).len(),
    decreases k2 - k1,
{
    if k1 < k2 {
        lemma_prefix_len_monotone(s, k1 + 1, k2);
        assert(s.take(k1 + 1) =~= s.take(k1).push(s[k1]));
        lemma_encode_push_len(s.take(k1), s[k1]);
    }
}

/// The character boundaries of an encoded text are exactly the lengths of the
/// encodings of its prefixes.
pub proof fn lemma_char_boundaries(s: Seq<char>, i: int)
    ensures
        valid_utf8(encode_utf8(s)),
        is_char_boundary(encode_utf8(s), i) <==> exists|k: int|
            0 <= k <= s.len() && #[trigger] encode_utf8(s.take(k)).len() == i,
    decreases s.len(),
{
    encode_utf8_valid_utf8(s);
    let bytes = encode_utf8(s);
    assert(s.take(0) =~= Seq::<char>::empty());
    if i == 0 {
        assert(encode_utf8(s.take(0)).len() == 0);
    } else if s.len() == 0 {
        assert forall|k: int| 0 <= k <= s.len() implies #[trigger] encode_utf8(s.take(k)).len() != i by {
            assert(s.take(k) =~= Seq::<char>::empty());
        }
    } else {
        lemma_encode_split_first(s);
        let w = utf8_width(s[0]);
        let rest = s.drop_first();
        lemma_char_boundaries(rest, i - w);
        if is_char_boundary(bytes, i) {
            assert(0 < i <= bytes.len());
            assert(is_char_boundary(encode_utf8(rest), i - w));
            let k2 = choose|k: int| 0 <= k <= rest.len() && #[trigger] encode_utf8(rest.take(k)).len() == i - w;
            lemma_encode_take_step(s, k2 + 1);
            assert(encode_utf8(s.take(k2 + 1)).len() == i);
        }
        if exists|k: int| 0 <= k <= s.len() && #[trigger] encode_utf8(s.take(k)).len() == i {
            let k = choose|k: int| 0 <= k <= s.len() && #[trigger] encode_utf8(s.take(k)).len() == i;
            assert(k > 0) by {
                if k == 0 {
                    assert(s.take(0) =~= Seq::<char>::empty());
                }
            }
            lemma_encode_take_step(s, k);
            assert(encode_utf8(rest.take(k - 1)).len() == i - w);
            assert(is_char_boundary(encode_utf8(rest), i - w));
            lemma_prefix_len_monotone(s, k, s.len() as int);
            assert(s.take(s.len() as int) =~= s);
            assert(i <= bytes.len());
            assert(is_char_boundary(bytes, i));
        }
    }
}

/// Cutting a text at [`chars_within`] is cutting it at its largest character
/// boundary that is not above `budget` bytes, which is how a cut at byte
/// `budget` is moved back to the start of a character.
pub proof fn lemma_cut_at_largest_boundary(s: Seq<char>, budget: nat)
    requires
        encode_utf8(s).len() > budget,
    ensures
        is_char_boundary(encode_utf8(s), encode_utf8(s.take(chars_within(s, budget) as int)).len() as int),
        encode_utf8(s.take(chars_within(s, budget) as int)).len() <= budget,
        forall|j: int|
            encode_utf8(s.take(chars_within(s, budget) as int)).len() < j <= budget
                ==> !is_char_boundary(encode_utf8(s), j),
{
    let k = chars_within(s, budget) as int;
    let e = encode_utf8(s.take(k)).len() as int;
    lemma_chars_within_is_longest_fitting_prefix(s, budget);
    assert(s.take(s.len() as int) =~= s);
    assert(k < s.len());
    lemma_char_boundaries(s, e);
    assert forall|j: int| e < j <= budget implies !is_char_boundary(encode_utf8(s), j) by {
        lemma_char_boundaries(s, j);
        if is_char_boundary(encode_utf8(s), j) {
            let k2 = choose|k2: int| 0 <= k2 <= s.len() && #[trigger] encode_utf8(s.take(k2)).len() == j;
            if k2 <= k {
                lemma_prefix_len_monotone(s, k2, k);
            } else {
                lemma_prefix_len_monotone(s, k, k2);
            }
        }
    }
}

} // verus!
