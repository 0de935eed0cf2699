use vstd::prelude::*;

use crate::error::{json_result_view, Error, ErrorView};
use crate::json::{field, member, members_view, Json, JsonView, Number};
use crate::text::concat;

verus! {

/// The BRP method that reads components of one entity.
pub open spec fn get_components_method() -> Seq<char> {
    "world.get_components"@
}

/// The BRP method that reads one resource.
pub open spec fn get_resources_method() -> Seq<char> {
    "world.get_resources"@
}

/// The name of the BRP method that reads components of one entity.
pub fn get_components_method_name() -> (r: &'static str)
    ensures
        r@ == get_components_method(),
{
    proof {
        reveal_strlit("world.get_components");
    }
    "world.get_components"
}

/// The name of the BRP method that reads one resource.
pub fn get_resources_method_name() -> (r: &'static str)
    ensures
        r@ == get_resources_method(),
{
    proof {
        reveal_strlit("world.get_resources");
    }
    "world.get_resources"
}

/// Parameters that strictly read component `type_path` of `entity`.
pub open spec fn get_components_params_view(entity: u64, type_path: Seq<char>) -> JsonView {
    JsonView::Object(
        seq![
            ("entity"@, JsonView::Number(Number::PosInt(entity))),
            ("components"@, JsonView::Array(seq![JsonView::String(type_path)])),
            ("strict"@, JsonView::Bool(true)),
        ],
    )
}

/// Builds the parameters that strictly read component `type_path` of `entity`.
pub fn get_components_params(entity: u64, type_path: &str) -> (r: Json)
    ensures
        r@ == get_components_params_view(entity, type_path@),
{
    let mut list: Vec<Json> = Vec::new();
    list.push(Json::text(type_path));
    let list = Json::array(list);
    let ghost lv = list@;
    let mut fields: Vec<(String, Json)> = Vec::new();
    fields.push(member("entity", Json::Number(Number::PosInt(entity))));
    fields.push(member("components", list));
    fields.push(member("strict", Json::Bool(true)));
    let r = Json::object(fields);
    proof {
        assert(lv->Array_0 =~= seq![JsonView::String(type_path@)]);
        assert(members_view(fields@) =~= get_components_params_view(entity, type_path@)->Object_0);
    }
    r
}

/// What reading component `type_path` yields from a `world.get_components`
/// result: the component's JSON; a malformed-response error when the result
/// is not an object; a missing-component error when it lacks `type_path`.
pub open spec fn component_outcome(type_path: Seq<char>, result: JsonView) -> Result<JsonView, ErrorView> {
    if !(result is Object) {
        Err(ErrorView::Brp {
            method: get_components_method(),
            message: "malformed world.get_components response: expected an object"@,
        })
    } else {
        match field(result, type_path) {
            Some(v) => Ok(v),
            None => Err(ErrorView::Brp {
                method: get_components_method(),
                message: "strict get_components response missing `"@ + type_path + "`"@,
            }),
        }
    }
}

/// Reads component `type_path` out of a `world.get_components` result.
pub fn component_from_response(type_path: &str, result: Json) -> (r: Result<Json, Error>)
    ensures
        json_result_view(r) == component_outcome(type_path@, result@),
{
    proof {
        reveal_strlit("world.get_components");
        reveal_strlit("malformed world.get_components response: expected an object");
        reveal_strlit("strict get_components response missing `");
        reveal_strlit("`");
    }
    if !result.is_object() {
        return Err(Error::Brp {
            method: String::from_str("world.get_components"),
            message: String::from_str("malformed world.get_components response: expected an object"),
        });
    }
    match result.into_field(type_path) {
        Some(v) => Ok(v),
        None => {
            let m = concat("strict get_components response missing `", type_path);
            Err(Error::Brp { method: String::from_str("world.get_components"), message: concat(m.as_str(), "`") })
        },
    }
}

/// Builds the parameters that read resource `type_path`: `{"resource": type_path}`.
pub fn get_resources_params(type_path: &str) -> (r: Json)
    ensures
        r@ == JsonView::Object(seq![("resource"@, JsonView::String(type_path@))]),
{
    let mut fields: Vec<(String, Json)> = Vec::new();
    fields.push(member("resource", Json::text(type_path)));
    let r = Json::object(fields);
    assert(members_view(fields@) =~= seq![("resource"@, JsonView::String(type_path@))]);
    r
}

/// What a `world.get_resources` result yields: its `value`, or a
/// malformed-response error when it has none.
pub open spec fn resource_outcome(result: JsonView) -> Result<JsonView, ErrorView> {
    match field(result, "value"@) {
        Some(v) => Ok(v),
        None => Err(ErrorView::Brp {
            method: get_resources_method(),
            message: "malformed world.get_resources response: missing field `value`"@,
        }),
    }
}

/// Reads the resource value out of a `world.get_resources` result.
pub fn resource_from_response(result: Json) -> (r: Result<Json, Error>)
    ensures
        json_result_view(r) == resource_outcome(result@),
{
    proof {
        reveal_strlit("world.get_resources");
        reveal_strlit("malformed world.get_resources response: missing field `value`");
    }
    match result.into_field("value") {
        Some(v) => Ok(v),
        None => Err(Error::Brp {
            method: String::from_str("world.get_resources"),
            message: String::from_str("malformed world.get_resources response: missing field `value`"),
        }),
    }
}

} // verus!
