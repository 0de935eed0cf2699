use vstd::prelude::*;

use crate::error::{Error, ErrorView};
use crate::json::{field, member, members_view, text_of, Json, JsonView, Number};
use crate::text::same_text;

verus! {

/// The BRP method that queries entities by their components.
pub open spec fn query_method() -> Seq<char> {
    "world.query"@
}

/// The name of the BRP query method.
pub fn query_method_name() -> (r: &'static str)
    ensures
        r@ == query_method(),
{
    proof {
        reveal_strlit("world.query");
    }
    "world.query"
}

/// The reflected type path of the selector component, `E2eId`.
pub open spec fn e2e_id_type_path() -> Seq<char> {
    "bevy_e2e::id::E2eId"@
}

/// The reflected type path of the selector component.
pub fn e2e_id_type_path_str() -> (r: &'static str)
    ensures
        r@ == e2e_id_type_path(),
{
    proof {
        reveal_strlit("bevy_e2e::id::E2eId");
    }
    "bevy_e2e::id::E2eId"
}

/// The `data` part of a BRP query: fetch `component`, and every optional
/// component too when `all`.
pub open spec fn query_data_view(component: Seq<char>, all: bool) -> JsonView {
    JsonView::Object(
        seq![
            ("components"@, JsonView::Array(seq![JsonView::String(component)])),
            (
                "option"@,
                if all {
                    JsonView::String("all"@)
                } else {
                    JsonView::Array(Seq::empty())
                },
            ),
            ("has"@, JsonView::Array(Seq::empty())),
        ],
    )
}

/// The `filter` part of a BRP query: entities that have `with`.
pub open spec fn query_filter_view(with: Seq<char>) -> JsonView {
    JsonView::Object(
        seq![
            ("with"@, JsonView::Array(seq![JsonView::String(with)])),
            ("without"@, JsonView::Array(Seq::empty())),
        ],
    )
}

/// Parameters of a BRP query: fetch `component` from entities that have
/// `with`, every optional component too when `all`, strictly when `strict`.
pub open spec fn query_params_view(component: Seq<char>, with: Seq<char>, all: bool, strict: bool) -> JsonView {
    JsonView::Object(
        seq![
            ("data"@, query_data_view(component, all)),
            ("filter"@, query_filter_view(with)),
            ("strict"@, JsonView::Bool(strict)),
        ],
    )
}

fn one_text(s: &str) -> (r: Json)
    ensures
        r@ == JsonView::Array(seq![JsonView::String(s@)]),
{
    let mut v: Vec<Json> = Vec::new();
    v.push(Json::text(s));
    let r = Json::array(v);
    assert(r@->Array_0 =~= seq![JsonView::String(s@)]);
    r
}

fn empty_array() -> (r: Json)
    ensures
        r@ == JsonView::Array(Seq::empty()),
{
    let v: Vec<Json> = Vec::new();
    let r = Json::array(v);
    assert(r@->Array_0 =~= Seq::<JsonView>::empty());
    r
}

/// Builds the parameters of a BRP query.
pub fn query_params(component: &str, with: &str, all: bool, strict: bool) -> (r: Json)
    ensures
        r@ == query_params_view(component@, with@, all, strict),
{
    let option = if all {
        Json::text("all")
    } else {
        empty_array()
    };
    let ghost option_view = option@;
    let mut data: Vec<(String, Json)> = Vec::new();
    data.push(member("components", one_text(component)));
    data.push(member("option", option));
    data.push(member("has", empty_array()));
    let data = Json::object(data);
    let mut filter: Vec<(String, Json)> = Vec::new();
    filter.push(member("with", one_text(with)));
    filter.push(member("without", empty_array()));
    let filter = Json::object(filter);
    let ghost dv = data@;
    let ghost fv = filter@;
    let mut top: Vec<(String, Json)> = Vec::new();
    top.push(member("data", data));
    top.push(member("filter", filter));
    top.push(member("strict", Json::Bool(strict)));
    let r = Json::object(top);
    proof {
        reveal_strlit("all");
        let expect = query_params_view(component@, with@, all, strict);
        assert(option_view == if all {
            JsonView::String("all"@)
        } else {
            JsonView::Array(Seq::empty())
        });
        assert(dv->Object_0 =~= query_data_view(component@, all)->Object_0);
        assert(fv->Object_0 =~= query_filter_view(with@)->Object_0);
        assert(members_view(top@) =~= expect->Object_0);
    }
    r
}

/// The text that a query row's selector component holds under `value`,
/// when the row has that component with a string `value`.
pub open spec fn selector_value(row: JsonView, type_path: Seq<char>) -> Option<Seq<char>> {
    match field(row, "components"@) {
        Some(components) => match field(components, type_path) {
            Some(component) => text_of(field(component, "value"@)),
            None => None,
        },
        None => None,
    }
}

/// The entity of a query row, when it is a non-negative integer.
pub open spec fn row_entity(row: JsonView) -> Option<u64> {
    match field(row, "entity"@) {
        Some(JsonView::Number(Number::PosInt(e))) => Some(e),
        _ => None,
    }
}

/// A query row has the shape of a BRP query row: an entity and a component map.
pub open spec fn well_formed_row(row: JsonView) -> bool {
    &&& row_entity(row) is Some
    &&& field(row, "components"@) matches Some(JsonView::Object(_))
}

/// A query response is a list of well-formed rows.
pub open spec fn well_formed_rows(rows: JsonView) -> bool {
    &&& rows is Array
    &&& forall|i: int| 0 <= i < rows->Array_0.len() ==> well_formed_row(#[trigger] rows->Array_0[i])
}

/// The entities, in row order, whose selector component value is `id`.
pub open spec fn matching(rows: Seq<JsonView>, type_path: Seq<char>, id: Seq<char>) -> Seq<u64>
    decreases rows.len(),
{
    if rows.len() == 0 {
        Seq::empty()
    } else {
        let rest = matching(rows.drop_last(), type_path, id);
        let row = rows.last();
        if selector_value(row, type_path) == Some(id) {
            rest.push(row_entity(row)->0)
        } else {
            rest
        }
    }
}

/// The error for a query response that is not a list of rows.
pub open spec fn malformed_query_error() -> ErrorView {
    ErrorView::Brp {
        method: query_method(),
        message: "malformed world.query response: expected a list of rows with entity and components"@,
    }
}

fn malformed_query() -> (e: Error)
    ensures
        e@ == malformed_query_error(),
{
    proof {
        reveal_strlit("world.query");
        reveal_strlit(
            "malformed world.query response: expected a list of rows with entity and components",
        );
    }
    Error::Brp {
        method: String::from_str("world.query"),
        message: String::from_str(
            "malformed world.query response: expected a list of rows with entity and components",
        ),
    }
}

/// Whether a query response is a list of well-formed rows.
pub fn rows_well_formed(rows: &Json) -> (r: bool)
    ensures
        r == well_formed_rows(rows@),
{
    let items = match rows {
        Json::Array(items) => items,
        _ => return false,
    };
    let ghost all = rows@->Array_0;
    assert(all =~= Seq::new(items@.len(), |i: int| items@[i]@));
    let n = items.len();
    let mut i: usize = 0;
    while i < n
        invariant
            n == items@.len(),
            all == Seq::new(items@.len(), |i: int| items@[i]@),
            rows@ == JsonView::Array(all),
            i <= n,
            forall|k: int| 0 <= k < i ==> well_formed_row(#[trigger] all[k]),
        decreases n - i,
    {
        let row = &items[i];
        assert(row@ == all[i as int]);
        let entity_ok = match row.get("entity") {
            Some(e) => match e.as_number() {
                Some(Number::PosInt(_)) => true,
                Some(_) => false,
                None => false,
            },
            None => false,
        };
        let components_ok = match row.get("components") {
            Some(c) => c.is_object(),
            None => false,
        };
        if !(entity_ok && components_ok) {
            assert(!well_formed_row(rows@->Array_0[i as int]));
            return false;
        }
        i = i + 1;
    }
    true
}

fn row_value<'a>(row: &'a Json, type_path: &str) -> (r: Option<&'a str>)
    ensures
        match r {
            Some(s) => selector_value(row@, type_path@) == Some(s@),
            None => selector_value(row@, type_path@) is None,
        },
{
    match row.get("components") {
        Some(components) => match components.get(type_path) {
            Some(component) => match component.get("value") {
                Some(v) => v.as_str(),
                None => None,
            },
            None => None,
        },
        None => None,
    }
}

/// The entities whose selector component (`type_path`) holds `id`, read
/// from a BRP query response.
pub fn matching_entities(rows: &Json, type_path: &str, id: &str) -> (r: Result<Vec<u64>, Error>)
    ensures
        match r {
            Ok(v) => well_formed_rows(rows@) && v@ == matching(rows@->Array_0, type_path@, id@),
            Err(e) => !well_formed_rows(rows@) && e@ == malformed_query_error(),
        },
{
    let items = match rows {
        Json::Array(items) => items,
        _ => return Err(malformed_query()),
    };
    let ghost all = rows@->Array_0;
    assert(all =~= Seq::new(items@.len(), |i: int| items@[i]@));
    let n = items.len();
    let mut out: Vec<u64> = Vec::new();
    let mut i: usize = 0;
    while i < n
        invariant
            n == items@.len(),
            all == Seq::new(items@.len(), |i: int| items@[i]@),
            rows@ == JsonView::Array(all),
            i <= n,
            forall|k: int| 0 <= k < i ==> well_formed_row(#[trigger] all[k]),
            out@ == matching(all.take(i as int), type_path@, id@),
        decreases n - i,
    {
        let row = &items[i];
        assert(row@ == all[i as int]);
        let entity = match row.get("entity") {
            Some(e) => match e.as_number() {
                Some(Number::PosInt(e)) => e,
                Some(other) => {
                    assert(!(other is PosInt));
                    assert(row_entity(rows@->Array_0[i as int]) is None);
                    return Err(malformed_query());
                },
                None => {
                    assert(row_entity(rows@->Array_0[i as int]) is None);
                    return Err(malformed_query());
                },
            },
            None => {
                assert(!well_formed_row(rows@->Array_0[i as int]));
                return Err(malformed_query());
            },
        };
        let components_ok = match row.get("components") {
            Some(c) => c.is_object(),
            None => false,
        };
        if !components_ok {
            assert(!well_formed_row(rows@->Array_0[i as int]));
            return Err(malformed_query());
        }
        assert(all.take(i + 1).drop_last() =~= all.take(i as int));
        assert(all.take(i + 1).last() == all[i as int]);
        match row_value(row, type_path) {
            Some(v) => {
                if same_text(v, id) {
                    out.push(entity);
                }
            },
            None => {},
        }
        i = i + 1;
    }
    assert(all.take(n as int) =~= all);
    Ok(out)
}

/// What `exists` reports for `count` matches of `id`: zero is `Ok(false)`,
/// one is `Ok(true)`, more is an ambiguous selector.
pub open spec fn exists_outcome(id: Seq<char>, count: nat) -> Result<bool, ErrorView> {
    if count == 0 {
        Ok(false)
    } else if count == 1 {
        Ok(true)
    } else {
        Err(ErrorView::AmbiguousSelector(id))
    }
}

/// What resolving `id` gives for its matches: the one entity, or why not.
pub open spec fn resolve_outcome(id: Seq<char>, matches: Seq<u64>) -> Result<u64, ErrorView> {
    if matches.len() == 0 {
        Err(ErrorView::SelectorNotFound(id))
    } else if matches.len() == 1 {
        Ok(matches[0])
    } else {
        Err(ErrorView::AmbiguousSelector(id))
    }
}

/// Decides `exists` from the matches of `id`.
pub fn exists_from_matches(id: &str, matches: &Vec<u64>) -> (r: Result<bool, Error>)
    ensures
        crate::error::view_err(r) == exists_outcome(id@, matches@.len()),
{
    if matches.len() == 0 {
        Ok(false)
    } else if matches.len() == 1 {
        Ok(true)
    } else {
        Err(Error::AmbiguousSelector(id.to_owned()))
    }
}

/// Resolves `id` to the one entity that matches it.
pub fn resolve_from_matches(id: &str, matches: &Vec<u64>) -> (r: Result<u64, Error>)
    ensures
        crate::error::view_err(r) == resolve_outcome(id@, matches@),
{
    if matches.len() == 0 {
        Err(Error::SelectorNotFound(id.to_owned()))
    } else if matches.len() == 1 {
        Ok(matches[0])
    } else {
        Err(Error::AmbiguousSelector(id.to_owned()))
    }
}

/// `exists` and `find` agree: a selector exists exactly when it resolves; it
/// is absent exactly when resolving reports it not found; and both report
/// the same ambiguity.
pub proof fn lemma_exists_agrees_with_resolve(id: Seq<char>, matches: Seq<u64>)
    ensures
        exists_outcome(id, matches.len()) == Ok::<bool, ErrorView>(true) <==> resolve_outcome(
            id,
            matches,
        ) is Ok,
        exists_outcome(id, matches.len()) == Ok::<bool, ErrorView>(false) <==> resolve_outcome(
            id,
            matches,
        ) == Err::<u64, ErrorView>(ErrorView::SelectorNotFound(id)),
        exists_outcome(id, matches.len()) is Err <==> resolve_outcome(id, matches) == Err::<
            u64,
            ErrorView,
        >(ErrorView::AmbiguousSelector(id)),
{
}

/// Selectors are strict. `exists` is true exactly when one entity matches
/// and false exactly when none does, and resolving succeeds exactly when one
/// entity matches, with that entity. No match makes resolving report the
/// selector not found; two or more matches, however many, make both report
/// the selector ambiguous.
pub proof fn lemma_selectors_are_strict(id: Seq<char>, matches: Seq<u64>)
    ensures
        exists_outcome(id, matches.len()) == Ok::<bool, ErrorView>(true) <==> matches.len() == 1,
        exists_outcome(id, matches.len()) == Ok::<bool, ErrorView>(false) <==> matches.len() == 0,
        resolve_outcome(id, matches) is Ok <==> matches.len() == 1,
        matches.len() == 1 ==> resolve_outcome(id, matches) == Ok::<u64, ErrorView>(matches[0]),
        matches.len() == 0 ==> resolve_outcome(id, matches) == Err::<u64, ErrorView>(
            ErrorView::SelectorNotFound(id),
        ),
        matches.len() >= 2 ==> exists_outcome(id, matches.len()) == Err::<bool, ErrorView>(
            ErrorView::AmbiguousSelector(id),
        ),
        matches.len() >= 2 ==> resolve_outcome(id, matches) == Err::<u64, ErrorView>(
            ErrorView::AmbiguousSelector(id),
        ),
{
}

/// Only entities whose selector value is `id` are ever matched, at most one per row.
pub proof fn lemma_matching_is_sound(rows: Seq<JsonView>, type_path: Seq<char>, id: Seq<char>)
    requires
        forall|i: int| 0 <= i < rows.len() ==> well_formed_row(#[trigger] rows[i]),
    ensures
        matching(rows, type_path, id).len() <= rows.len(),
        forall|k: int|
            0 <= k < matching(rows, type_path, id).len() ==> #[trigger] matched_by(
                rows,
                type_path,
                id,
                matching(rows, type_path, id)[k],
            ),
    decreases rows.len(),
{
    if rows.len() > 0 {
        let init = rows.drop_last();
        assert forall|i: int| 0 <= i < init.len() implies well_formed_row(#[trigger] init[i]) by {
            assert(init[i] == rows[i]);
        }
        lemma_matching_is_sound(init, type_path, id);
        let m = matching(rows, type_path, id);
        let mi = matching(init, type_path, id);
        let last = rows.len() - 1;
        assert(rows.last() == rows[last]);
        assert(well_formed_row(rows[last]));
        if selector_value(rows[last], type_path) == Some(id) {
            assert(m == mi.push(row_entity(rows[last])->0));
        } else {
            assert(m == mi);
        }
        assert forall|k: int| 0 <= k < m.len() implies #[trigger] matched_by(
            rows,
            type_path,
            id,
            m[k],
        ) by {
            if k < mi.len() {
                assert(m[k] == mi[k]);
                assert(matched_by(init, type_path, id, mi[k]));
                let i = choose|i: int|
                    0 <= i < init.len() && selector_value(init[i], type_path) == Some(id)
                        && row_entity(init[i]) == Some(mi[k]);
                assert(init[i] == rows[i]);
            } else {
                assert(selector_value(rows[last], type_path) == Some(id));
                assert(row_entity(rows[last]) == Some(m[k]));
            }
        }
    }
}

/// Some row of `rows` holds `id` in its selector component and is the entity `e`.
pub open spec fn matched_by(rows: Seq<JsonView>, type_path: Seq<char>, id: Seq<char>, e: u64) -> bool {
    exists|i: int|
        0 <= i < rows.len() && selector_value(rows[i], type_path) == Some(id) && row_entity(rows[i])
            == Some(e)
}

} // verus!

verus! {

/// The query that resolves selectors: the `E2eId` of every entity that has
/// one, strictly.
pub fn selector_query_params() -> (r: Json)
    ensures
        r@ == query_params_view(e2e_id_type_path(), e2e_id_type_path(), false, true),
{
    let tp = e2e_id_type_path_str();
    query_params(tp, tp, false, true)
}

/// The query behind `world.json`: every reflected component of the entities
/// that carry an `E2eId`, and only those, leniently.
pub fn world_query_params() -> (r: Json)
    ensures
        r@ == query_params_view(e2e_id_type_path(), e2e_id_type_path(), true, false),
{
    let tp = e2e_id_type_path_str();
    query_params(tp, tp, true, false)
}

} // verus!
