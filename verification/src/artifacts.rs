use vstd::prelude::*;

use crate::error::{error_text, Error, ErrorView};
use crate::json::{member, members_view, Json, JsonView, Number};
use crate::text::{chars_of, concat, decimal, decimal_string, push_char};

verus! {

/// A character that may stand in a session directory name as it is.
pub open spec fn is_label_char(c: char) -> bool {
    ('a' <= c && c <= 'z') || ('A' <= c && c <= 'Z') || ('0' <= c && c <= '9') || c == '-' || c
        == '_'
}

/// A label character, or `_` in place of any other character.
pub open spec fn label_char(c: char) -> char {
    if is_label_char(c) {
        c
    } else {
        '_'
    }
}

/// A label made safe for a directory name: each character outside ASCII
/// letters, digits, `-` and `_` becomes `_`; an empty label becomes `session`.
pub open spec fn sanitized(label: Seq<char>) -> Seq<char> {
    if label.len() == 0 {
        "session"@
    } else {
        label.map_values(|c: char| label_char(c))
    }
}

/// Makes `label` safe for a directory name (see [`sanitized`]).
pub fn sanitize_label(label: &str) -> (r: String)
    ensures
        r@ == sanitized(label@),
{
    let chars = chars_of(label);
    let n = chars.len();
    let mut out = String::new();
    let mut i: usize = 0;
    while i < n
        invariant
            n == chars@.len(),
            chars@ == label@,
            i <= n,
            out@ == label@.take(i as int).map_values(|c: char| label_char(c)),
        decreases n - i,
    {
        let c = chars[i];
        let safe = ('a' <= c && c <= 'z') || ('A' <= c && c <= 'Z') || ('0' <= c && c <= '9')
            || c == '-' || c == '_';
        if safe {
            push_char(&mut out, c);
        } else {
            push_char(&mut out, '_');
        }
        assert(label@.take(i + 1).map_values(|c: char| label_char(c)) =~= label@.take(
            i as int,
        ).map_values(|c: char| label_char(c)).push(label_char(c)));
        i = i + 1;
    }
    assert(label@.take(n as int) =~= label@);
    if n == 0 {
        proof {
            reveal_strlit("session");
        }
        return String::from_str("session");
    }
    out
}

/// The session directory name for an explicit or configured label: the first
/// label given, sanitized; `None` when neither is given.
pub open spec fn labeled_name(label: Option<Seq<char>>, fallback: Option<Seq<char>>) -> Option<Seq<char>> {
    match label {
        Some(l) => Some(sanitized(l)),
        None => match fallback {
            Some(f) => Some(sanitized(f)),
            None => None,
        },
    }
}

/// The view of an optional string slice.
pub open spec fn opt_view(o: Option<&str>) -> Option<Seq<char>> {
    match o {
        Some(s) => Some(s@),
        None => None,
    }
}

/// Names a session directory after the capture's label, else the options' label.
pub fn labeled_session_name(label: Option<&str>, fallback: Option<&str>) -> (r: Option<String>)
    ensures
        match r {
            Some(s) => labeled_name(opt_view(label), opt_view(fallback)) == Some(s@),
            None => labeled_name(opt_view(label), opt_view(fallback)) is None,
        },
{
    match label {
        Some(l) => Some(sanitize_label(l)),
        None => match fallback {
            Some(f) => Some(sanitize_label(f)),
            None => None,
        },
    }
}

/// An unlabeled session's directory name: `{stem}-{pid}-{counter}`, with the
/// binary stem sanitized.
pub open spec fn auto_name(stem: Seq<char>, pid: u32, counter: u64) -> Seq<char> {
    sanitized(stem) + "-"@ + decimal(pid as nat) + "-"@ + decimal(counter as nat)
}

/// Names an unlabeled session directory from the binary stem, the process id
/// and a per-process session counter.
pub fn auto_session_name(stem: &str, pid: u32, counter: u64) -> (r: String)
    ensures
        r@ == auto_name(stem@, pid, counter),
{
    proof {
        reveal_strlit("-");
    }
    let s = concat(sanitize_label(stem).as_str(), "-");
    let s = concat(s.as_str(), decimal_string(pid as u64).as_str());
    let s = concat(s.as_str(), "-");
    concat(s.as_str(), decimal_string(counter).as_str())
}

/// Every character of a decimal rendering is a digit.
proof fn lemma_decimal_is_safe(n: nat)
    ensures
        decimal(n).len() > 0,
        forall|i: int| 0 <= i < decimal(n).len() ==> is_label_char(#[trigger] decimal(n)[i]),
    decreases n,
{
    if n >= 10 {
        lemma_decimal_is_safe(n / 10);
        let d = decimal(n / 10);
        assert(decimal(n) == d.push(crate::text::digit_char(n % 10)));
        assert forall|i: int| 0 <= i < decimal(n).len() implies is_label_char(
            #[trigger] decimal(n)[i],
        ) by {
            if i < d.len() {
                assert(decimal(n)[i] == d[i]);
            }
        }
    }
}

proof fn lemma_sanitized_is_safe(label: Seq<char>)
    ensures
        sanitized(label).len() > 0,
        forall|i: int| 0 <= i < sanitized(label).len() ==> is_label_char(#[trigger] sanitized(label)[i]),
{
    reveal_strlit("session");
}

/// Session directory names are never empty and hold only ASCII letters,
/// digits, `-` and `_`, so they never escape the artifact root.
pub proof fn lemma_session_names_are_safe(
    label: Option<Seq<char>>,
    fallback: Option<Seq<char>>,
    stem: Seq<char>,
    pid: u32,
    counter: u64,
)
    ensures
        labeled_name(label, fallback) matches Some(name) ==> name.len() > 0 && forall|i: int|
            0 <= i < name.len() ==> is_label_char(#[trigger] name[i]),
        auto_name(stem, pid, counter).len() > 0,
        forall|i: int|
            0 <= i < auto_name(stem, pid, counter).len() ==> is_label_char(
                #[trigger] auto_name(stem, pid, counter)[i],
            ),
{
    reveal_strlit("-");
    if let Some(l) = label {
        lemma_sanitized_is_safe(l);
    } else if let Some(f) = fallback {
        lemma_sanitized_is_safe(f);
    }
    lemma_sanitized_is_safe(stem);
    lemma_decimal_is_safe(pid as nat);
    lemma_decimal_is_safe(counter as nat);
    let a = sanitized(stem);
    let p = decimal(pid as nat);
    let c = decimal(counter as nat);
    let name = auto_name(stem, pid, counter);
    assert(name == a + "-"@ + p + "-"@ + c);
    assert forall|i: int| 0 <= i < name.len() implies is_label_char(#[trigger] name[i]) by {
        if i < a.len() {
            assert(name[i] == a[i]);
        } else if i == a.len() {
            assert(name[i] == '-');
        } else if i < a.len() + 1 + p.len() {
            assert(name[i] == p[i - a.len() - 1]);
        } else if i == a.len() + 1 + p.len() {
            assert(name[i] == '-');
        } else {
            assert(name[i] == c[i - a.len() - 2 - p.len()]);
        }
    }
}

/// Sanitizing is idempotent, and a label made only of safe characters is kept as it is.
pub proof fn lemma_sanitize_idempotent(label: Seq<char>)
    ensures
        sanitized(sanitized(label)) == sanitized(label),
        (label.len() > 0 && forall|i: int| 0 <= i < label.len() ==> is_label_char(#[trigger] label[i]))
            ==> sanitized(label) == label,
{
    lemma_sanitized_is_safe(label);
    let once = sanitized(label);
    assert(sanitized(once) =~= once);
    if label.len() > 0 && forall|i: int| 0 <= i < label.len() ==> is_label_char(#[trigger] label[i]) {
        assert(sanitized(label) =~= label);
    }
}

/// Different numbers have different decimal renderings.
proof fn lemma_decimal_injective(a: nat, b: nat)
    requires
        decimal(a) == decimal(b),
    ensures
        a == b,
    decreases a,
{
    lemma_decimal_is_safe(a / 10);
    lemma_decimal_is_safe(b / 10);
    let da = decimal(a);
    let db = decimal(b);
    if a < 10 && b < 10 {
        assert(da[0] == db[0]);
    } else if a >= 10 && b >= 10 {
        assert(da.drop_last() =~= decimal(a / 10));
        assert(db.drop_last() =~= decimal(b / 10));
        lemma_decimal_injective(a / 10, b / 10);
        assert(da.last() == db.last());
    } else {
        assert(da.len() != db.len());
    }
}

/// Two unlabeled sessions of one binary in one process get different
/// directory names whenever their session counters differ, so a later
/// session never writes into an earlier one's directory.
pub proof fn lemma_auto_names_differ(stem: Seq<char>, pid: u32, first: u64, second: u64)
    requires
        first != second,
    ensures
        auto_name(stem, pid, first) != auto_name(stem, pid, second),
{
    let prefix = sanitized(stem) + "-"@ + decimal(pid as nat) + "-"@;
    let n1 = auto_name(stem, pid, first);
    let n2 = auto_name(stem, pid, second);
    assert(n1 == prefix + decimal(first as nat));
    assert(n2 == prefix + decimal(second as nat));
    if n1 == n2 {
        assert(n1.subrange(prefix.len() as int, n1.len() as int) =~= decimal(first as nat));
        assert(n2.subrange(prefix.len() as int, n2.len() as int) =~= decimal(second as nat));
        lemma_decimal_injective(first as nat, second as nat);
    }
}

/// The process-wide numbering of unlabeled sessions. It starts at 1 and
/// hands out each number once, counting up (wrapping only past `u64::MAX`).
#[derive(Debug)]
pub struct SessionCounter {
    pub next: u64,
}

/// The counter's value after handing out `n`.
pub open spec fn counter_after(n: u64) -> u64 {
    if n == u64::MAX {
        0
    } else {
        (n + 1) as u64
    }
}

impl SessionCounter {
    /// A fresh counter, whose first session is numbered 1.
    pub fn new() -> (r: Self)
        ensures
            r.next == 1,
    {
        SessionCounter { next: 1 }
    }

    /// Hands out the next session number.
    pub fn take(&mut self) -> (n: u64)
        ensures
            n == old(self).next,
            final(self).next == counter_after(old(self).next),
    {
        let n = self.next;
        self.next = if n == u64::MAX {
            0
        } else {
            n + 1
        };
        n
    }
}

/// Successive unlabeled sessions of one binary in one process get different
/// directory names: until the counter wraps, each number handed out is larger
/// than every earlier one, so every name differs from every earlier name.
pub proof fn lemma_successive_sessions_differ(stem: Seq<char>, pid: u32, earlier: u64, counter: u64)
    requires
        earlier < counter,
        counter < u64::MAX,
    ensures
        earlier < counter_after(counter),
        counter < counter_after(counter),
        auto_name(stem, pid, earlier) != auto_name(stem, pid, counter),
        auto_name(stem, pid, counter) != auto_name(stem, pid, counter_after(counter)),
{
    lemma_auto_names_differ(stem, pid, earlier, counter);
    lemma_auto_names_differ(stem, pid, counter, counter_after(counter));
}

/// A capture's own label always names its directory, whatever the options
/// say; without one the options' label does; with neither the session is
/// unlabeled and gets an automatic name.
pub proof fn lemma_capture_label_comes_first(label: Seq<char>, fallback: Option<Seq<char>>, f: Seq<char>)
    ensures
        labeled_name(Some(label), fallback) == Some(sanitized(label)),
        labeled_name(None, Some(f)) == Some(sanitized(f)),
        labeled_name(None, None) is None,
{
}

/// The `failure.json` of a failed session.
pub open spec fn failure_view(error: Seq<char>, child_pid: u32, remote_errors: Seq<Seq<char>>) -> JsonView {
    JsonView::Object(
        seq![
            ("error"@, JsonView::String(error)),
            ("child_pid"@, JsonView::Number(Number::PosInt(child_pid as u64))),
            ("remote_errors"@, JsonView::Array(remote_errors.map_values(|e: Seq<char>| JsonView::String(e)))),
        ],
    )
}

/// Builds the `failure.json` of a failed session: the primary error text,
/// the child's process id and the errors met while capturing artifacts.
pub fn failure_report(error: &str, child_pid: u32, remote_errors: &Vec<String>) -> (r: Json)
    ensures
        r@ == failure_view(error@, child_pid, remote_errors@.map_values(|e: String| e@)),
{
    let n = remote_errors.len();
    let mut items: Vec<Json> = Vec::new();
    let mut i: usize = 0;
    while i < n
        invariant
            n == remote_errors@.len(),
            i <= n,
            items@.len() == i,
            forall|k: int| 0 <= k < i ==> (#[trigger] items@[k])@ == JsonView::String(remote_errors@[k]@),
        decreases n - i,
    {
        items.push(Json::text(remote_errors[i].as_str()));
        i = i + 1;
    }
    let ghost iv = Seq::new(items@.len(), |k: int| items@[k]@);
    let list = Json::array(items);
    let ghost lv = list@;
    let mut fields: Vec<(String, Json)> = Vec::new();
    fields.push(member("error", Json::text(error)));
    fields.push(member("child_pid", Json::Number(Number::PosInt(child_pid as u64))));
    fields.push(member("remote_errors", list));
    let r = Json::object(fields);
    proof {
        let expect = failure_view(error@, child_pid, remote_errors@.map_values(|e: String| e@));
        assert(iv =~= remote_errors@.map_values(|e: String| e@).map_values(|e: Seq<char>| JsonView::String(e)));
        assert(members_view(fields@) =~= expect->Object_0);
    }
    r
}

/// One entry of a failure's remote errors: `{what}: {error text}`.
pub fn remote_error_entry(what: &str, error: &Error) -> (r: String)
    ensures
        r@ == what@ + ": "@ + error_text(error@),
{
    proof {
        reveal_strlit(": ");
    }
    let head = concat(what, ": ");
    concat(head.as_str(), error.message().as_str())
}

/// The `world.json` of a capture: the frame count and the queried entities.
pub open spec fn world_view(frame_count: JsonView, entities: JsonView) -> JsonView {
    JsonView::Object(seq![("frame_count"@, frame_count), ("entities"@, entities)])
}

/// Builds the `world.json` of a capture.
pub fn world_snapshot(frame_count: Json, entities: Json) -> (r: Json)
    ensures
        r@ == world_view(frame_count@, entities@),
{
    let ghost fv = frame_count@;
    let ghost ev = entities@;
    let mut fields: Vec<(String, Json)> = Vec::new();
    fields.push(member("frame_count", frame_count));
    fields.push(member("entities", entities));
    let r = Json::object(fields);
    assert(members_view(fields@) =~= world_view(fv, ev)->Object_0);
    r
}

/// Builds the parameters of a screenshot request: `{"path": path}`.
pub fn screenshot_params(path: &str) -> (r: Json)
    ensures
        r@ == JsonView::Object(seq![("path"@, JsonView::String(path@))]),
{
    let mut fields: Vec<(String, Json)> = Vec::new();
    fields.push(member("path", Json::text(path)));
    let r = Json::object(fields);
    assert(members_view(fields@) =~= seq![("path"@, JsonView::String(path@))]);
    r
}

/// What the harness concludes from the file a screenshot request wrote: its
/// length, or the error met reading its metadata.
pub open spec fn screenshot_check(path: Seq<char>, metadata: Result<u64, Seq<char>>) -> Result<(), ErrorView> {
    match metadata {
        Err(e) => Err(ErrorView::Artifact("screenshot completed but file missing at "@ + path + ": "@ + e)),
        Ok(len) => if len == 0 {
            Err(ErrorView::Artifact("screenshot file is empty: "@ + path))
        } else {
            Ok(())
        },
    }
}

/// Checks the file that a screenshot request wrote at `path` (shown as `path`).
pub fn check_screenshot(path: &str, metadata: Result<u64, String>) -> (r: Result<(), Error>)
    ensures
        crate::error::view_err(r) == screenshot_check(path@, match metadata {
            Ok(n) => Ok(n),
            Err(e) => Err(e@),
        }),
{
    proof {
        reveal_strlit("screenshot completed but file missing at ");
        reveal_strlit(": ");
        reveal_strlit("screenshot file is empty: ");
    }
    match metadata {
        Err(e) => {
            let s = concat("screenshot completed but file missing at ", path);
            let s = concat(s.as_str(), ": ");
            Err(Error::Artifact(concat(s.as_str(), e.as_str())))
        },
        Ok(len) => {
            if len == 0 {
                Err(Error::Artifact(concat("screenshot file is empty: ", path)))
            } else {
                Ok(())
            }
        },
    }
}

} // verus!
