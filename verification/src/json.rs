use vstd::prelude::*;

use crate::text::same_text;

verus! {

/// A JSON number as `serde_json` holds it: a non-negative integer, a negative
/// integer, or a finite float, kept here as its IEEE-754 bit pattern.
#[derive(Debug, Clone, Copy, PartialEq, Eq, Structural)]
pub enum Number {
    PosInt(u64),
    NegInt(i64),
    Float(u64),
}

/// A JSON value: what the harness reads from and writes to the Bevy Remote
/// Protocol. An object keeps its members in order.
#[derive(Debug, PartialEq)]
pub enum Json {
    Null,
    Bool(bool),
    Number(Number),
    String(String),
    Array(Vec<Json>),
    Object(Vec<(String, Json)>),
}

/// The abstract content of a JSON value.
pub enum JsonView {
    Null,
    Bool(bool),
    Number(Number),
    String(Seq<char>),
    Array(Seq<JsonView>),
    Object(Seq<(Seq<char>, JsonView)>),
}

/// The abstract content of a JSON value, member by member.
pub open spec fn view_of(j: Json) -> JsonView
    decreases j,
{
    match j {
        Json::Null => JsonView::Null,
        Json::Bool(b) => JsonView::Bool(b),
        Json::Number(n) => JsonView::Number(n),
        Json::String(s) => JsonView::String(s@),
        Json::Array(v) => JsonView::Array(
            Seq::new(
                v@.len(),
                |i: int|
                    if 0 <= i < v@.len() {
                        proof {
                            assert(decreases_to!(v => v@));
                            assert(decreases_to!(v@ => v@[i]));
                        }
                        view_of(v@[i])
                    } else {
                        JsonView::Null
                    },
            ),
        ),
        Json::Object(f) => JsonView::Object(
            Seq::new(
                f@.len(),
                |i: int|
                    if 0 <= i < f@.len() {
                        proof {
                            assert(decreases_to!(f => f@));
                            assert(decreases_to!(f@ => f@[i]));
                            assert(decreases_to!(f@[i] => f@[i].1));
                        }
                        (f@[i].0@, view_of(f@[i].1))
                    } else {
                        (Seq::empty(), JsonView::Null)
                    },
            ),
        ),
    }
}

impl View for Json {
    type V = JsonView;

    open spec fn view(&self) -> JsonView {
        view_of(*self)
    }
}

/// The value of the first member named `key` among `members`.
pub open spec fn first_member(members: Seq<(Seq<char>, JsonView)>, key: Seq<char>) -> Option<
    JsonView,
>
    decreases members.len(),
{
    if members.len() == 0 {
        None
    } else if members[0].0 == key {
        Some(members[0].1)
    } else {
        first_member(members.drop_first(), key)
    }
}

/// The member `key` of `j`, as `serde_json::Value::get` finds it: `None`
/// when `j` is not an object or has no such member.
pub open spec fn field(j: JsonView, key: Seq<char>) -> Option<JsonView> {
    match j {
        JsonView::Object(members) => first_member(members, key),
        _ => None,
    }
}

/// The element `i` of `j` when `j` is an array that long (`Value::get` with an index).
pub open spec fn element(j: JsonView, i: int) -> Option<JsonView> {
    match j {
        JsonView::Array(items) => if 0 <= i < items.len() {
            Some(items[i])
        } else {
            None
        },
        _ => None,
    }
}

/// The text of `j` when it is a JSON string (`serde_json::Value::as_str`).
pub open spec fn text_of(j: Option<JsonView>) -> Option<Seq<char>> {
    match j {
        Some(JsonView::String(s)) => Some(s),
        _ => None,
    }
}

/// The position of the first member named `key` among `members`.
pub open spec fn member_index(members: Seq<(Seq<char>, JsonView)>, key: Seq<char>) -> Option<int>
    decreases members.len(),
{
    if members.len() == 0 {
        None
    } else if members[0].0 == key {
        Some(0)
    } else {
        match member_index(members.drop_first(), key) {
            Some(i) => Some(i + 1),
            None => None,
        }
    }
}

proof fn lemma_member_index(members: Seq<(Seq<char>, JsonView)>, key: Seq<char>)
    ensures
        member_index(members, key) is Some ==> {
            let i = member_index(members, key)->0;
            &&& 0 <= i < members.len()
            &&& members[i].0 == key
            &&& first_member(members, key) == Some(members[i].1)
            &&& forall|k: int| 0 <= k < i ==> members[k].0 != key
        },
        member_index(members, key) is None ==> first_member(members, key) is None && forall|k: int|
            0 <= k < members.len() ==> members[k].0 != key,
    decreases members.len(),
{
    if members.len() > 0 && members[0].0 != key {
        lemma_member_index(members.drop_first(), key);
        assert forall|k: int| 1 <= k < members.len() implies members[k] == members.drop_first()[k
            - 1] by {}
    }
}

/// In an object whose keys are distinct, each member is found under its own key.
pub proof fn lemma_distinct_members(members: Seq<(Seq<char>, JsonView)>)
    requires
        forall|i: int, j: int| 0 <= i < j < members.len() ==> members[i].0 != members[j].0,
    ensures
        forall|i: int|
            0 <= i < members.len() ==> first_member(members, #[trigger] members[i].0) == Some(
                members[i].1,
            ),
    decreases members.len(),
{
    if members.len() > 0 {
        let rest = members.drop_first();
        lemma_distinct_members(rest);
        assert forall|i: int| 0 <= i < members.len() implies first_member(
            members,
            #[trigger] members[i].0,
        ) == Some(members[i].1) by {
            if i > 0 {
                assert(members[i] == rest[i - 1]);
            }
        }
    }
}

/// The members of an object, by view.
pub open spec fn members_view(f: Seq<(String, Json)>) -> Seq<(Seq<char>, JsonView)> {
    Seq::new(f.len(), |i: int| (f[i].0@, view_of(f[i].1)))
}

proof fn lemma_object_view(f: Vec<(String, Json)>)
    ensures
        view_of(Json::Object(f)) == JsonView::Object(members_view(f@)),
{
    assert(view_of(Json::Object(f))->Object_0 =~= members_view(f@));
}

proof fn lemma_array_view(v: Vec<Json>)
    ensures
        view_of(Json::Array(v)) == JsonView::Array(Seq::new(v@.len(), |i: int| view_of(v@[i]))),
{
    assert(view_of(Json::Array(v))->Array_0 =~= Seq::new(v@.len(), |i: int| view_of(v@[i])));
}

/// The position of the first member named `key` in `fields`.
fn find_member(fields: &Vec<(String, Json)>, key: &str) -> (r: Option<usize>)
    ensures
        member_index(members_view(fields@), key@) is Some ==> r is Some && r->0 as int
            == member_index(members_view(fields@), key@)->0,
        member_index(members_view(fields@), key@) is None ==> r is None,
{
    let ghost m = members_view(fields@);
    let n = fields.len();
    let mut i: usize = 0;
    while i < n
        invariant
            n == fields@.len(),
            m == members_view(fields@),
            i <= n,
            forall|k: int| 0 <= k < i ==> m[k].0 != key@,
        decreases n - i,
    {
        if same_text(fields[i].0.as_str(), key) {
            proof {
                lemma_member_index(m, key@);
                assert(m[i as int].0 == key@);
                assert(member_index(m, key@) is Some);
                let j = member_index(m, key@)->0;
                assert(j == i as int) by {
                    if j > i {
                        assert(m[i as int].0 == key@);
                    }
                }
            }
            return Some(i);
        }
        i = i + 1;
    }
    proof {
        lemma_member_index(m, key@);
        if member_index(m, key@) is Some {
            let j = member_index(m, key@)->0;
            assert(m[j].0 == key@);
        }
    }
    None
}

impl Json {
    /// The member `key` of this value, if it is an object that has one.
    pub fn get(&self, key: &str) -> (r: Option<&Json>)
        ensures
            match r {
                Some(v) => field(self@, key@) == Some(v@),
                None => field(self@, key@) is None,
            },
    {
        match self {
            Json::Object(fields) => {
                proof {
                    lemma_object_view(*fields);
                    lemma_member_index(members_view(fields@), key@);
                }
                match find_member(fields, key) {
                    Some(i) => Some(&fields[i].1),
                    None => None,
                }
            },
            _ => None,
        }
    }

    /// Takes the member `key` out of this value, if it is an object that has one.
    pub fn into_field(self, key: &str) -> (r: Option<Json>)
        ensures
            match r {
                Some(v) => field(self@, key@) == Some(v@),
                None => field(self@, key@) is None,
            },
    {
        match self {
            Json::Object(fields) => {
                proof {
                    lemma_object_view(fields);
                    lemma_member_index(members_view(fields@), key@);
                }
                match find_member(&fields, key) {
                    Some(i) => {
                        let ghost before = fields@;
                        let mut fields = fields;
                        let (_, v) = fields.remove(i);
                        assert(v == before[i as int].1);
                        Some(v)
                    },
                    None => None,
                }
            },
            _ => None,
        }
    }

    /// The element `i` of this value, if it is an array that long.
    pub fn at(&self, i: usize) -> (r: Option<&Json>)
        ensures
            match r {
                Some(v) => element(self@, i as int) == Some(v@),
                None => element(self@, i as int) is None,
            },
    {
        match self {
            Json::Array(items) => {
                proof {
                    lemma_array_view(*items);
                }
                if i < items.len() {
                    Some(&items[i])
                } else {
                    None
                }
            },
            _ => None,
        }
    }

    /// Whether this value is a JSON object.
    pub fn is_object(&self) -> (r: bool)
        ensures
            r == (self@ is Object),
    {
        match self {
            Json::Object(_) => true,
            Json::Null => false,
            Json::Bool(_) => false,
            Json::Number(_) => false,
            Json::String(_) => false,
            Json::Array(_) => false,
        }
    }

    /// The text of this value, if it is a JSON string.
    pub fn as_str(&self) -> (r: Option<&str>)
        ensures
            match r {
                Some(s) => text_of(Some(self@)) == Some(s@),
                None => text_of(Some(self@)) is None,
            },
    {
        match self {
            Json::String(s) => Some(s.as_str()),
            _ => None,
        }
    }

    /// The number this value holds, if it is a JSON number.
    pub fn as_number(&self) -> (r: Option<Number>)
        ensures
            match r {
                Some(n) => self@ == JsonView::Number(n),
                None => !(self@ is Number),
            },
    {
        match self {
            Json::Number(n) => Some(*n),
            _ => None,
        }
    }

    /// A JSON string holding `s`.
    pub fn text(s: &str) -> (r: Json)
        ensures
            r@ == JsonView::String(s@),
    {
        Json::String(s.to_owned())
    }

    /// A JSON array of the given elements, in order.
    pub fn array(items: Vec<Json>) -> (r: Json)
        ensures
            r@ == JsonView::Array(Seq::new(items@.len(), |i: int| items@[i]@)),
    {
        proof {
            lemma_array_view(items);
        }
        let r = Json::Array(items);
        assert(r@->Array_0 =~= Seq::new(items@.len(), |i: int| items@[i]@));
        r
    }

    /// A JSON object of the given members, in order.
    pub fn object(fields: Vec<(String, Json)>) -> (r: Json)
        ensures
            r@ == JsonView::Object(members_view(fields@)),
    {
        proof {
            lemma_object_view(fields);
        }
        Json::Object(fields)
    }
}

/// One object member: its key and value.
pub fn member(key: &str, value: Json) -> (r: (String, Json))
    ensures
        r.0@ == key@,
        r.1 == value,
{
    (key.to_owned(), value)
}

} // verus!
