use vstd::prelude::*;

use crate::error::{view_err, Error, ErrorView};
use crate::json::{element, field, member, members_view, Json, JsonView, Number};
use crate::selector::{row_entity, rows_well_formed, well_formed_rows};
use crate::text::{concat, contains, contains_text};

verus! {

/// The fragments of BRP error messages that mean a component is missing,
/// unknown, unregistered or not reflectable.
pub open spec fn component_problem_markers() -> Seq<Seq<char>> {
    seq![
        "not present"@,
        "Unknown component"@,
        "isn't registered"@,
        "Cannot reflect component"@,
        "strict get_components response missing"@,
    ]
}

/// A BRP error message reports a missing or invalid component.
pub open spec fn reports_component_problem(message: Seq<char>) -> bool {
    exists|k: int|
        0 <= k < component_problem_markers().len() && contains_text(
            message,
            #[trigger] component_problem_markers()[k],
        )
}

/// Whether a BRP error message reports a missing or invalid component.
pub fn is_missing_or_invalid_component_brp(message: &str) -> (r: bool)
    ensures
        r == reports_component_problem(message@),
{
    proof {
        reveal_strlit("not present");
        reveal_strlit("Unknown component");
        reveal_strlit("isn't registered");
        reveal_strlit("Cannot reflect component");
        reveal_strlit("strict get_components response missing");
    }
    let ghost m = component_problem_markers();
    let r = contains(message, "not present") || contains(message, "Unknown component") || contains(
        message,
        "isn't registered",
    ) || contains(message, "Cannot reflect component") || contains(
        message,
        "strict get_components response missing",
    );
    assert(m[0] == "not present"@);
    assert(m[1] == "Unknown component"@);
    assert(m[2] == "isn't registered"@);
    assert(m[3] == "Cannot reflect component"@);
    assert(m[4] == "strict get_components response missing"@);
    r
}

/// The configuration message given when `id` does not name a UI click target.
pub open spec fn not_click_target_text(id: Seq<char>, message: Seq<char>) -> Seq<char> {
    "selector `"@ + id
        + "` is not a Bevy UI click target (missing or invalid UiGlobalTransform): "@ + message
}

/// What a click on `id` reports for an error met while reading its transform:
/// a BRP error about a missing or invalid component becomes a configuration
/// error; every other error is passed on unchanged.
pub open spec fn click_component_error(id: Seq<char>, e: ErrorView) -> ErrorView {
    match e {
        ErrorView::Brp { method, message } => if reports_component_problem(message) {
            ErrorView::Configuration(not_click_target_text(id, message))
        } else {
            e
        },
        _ => e,
    }
}

/// Remaps only missing/invalid-component BRP failures into a clear UI-click
/// configuration error; transport, malformed-response, child-exit, timeout
/// and other errors stay unchanged.
pub fn map_click_component_error(id: &str, error: Error) -> (res: Error)
    ensures
        res@ == click_component_error(id@, error@),
{
    match error {
        Error::Brp { method, message } => {
            if is_missing_or_invalid_component_brp(message.as_str()) {
                proof {
                    reveal_strlit("selector `");
                    reveal_strlit(
                        "` is not a Bevy UI click target (missing or invalid UiGlobalTransform): ",
                    );
                }
                let head = concat("selector `", id);
                let head = concat(
                    head.as_str(),
                    "` is not a Bevy UI click target (missing or invalid UiGlobalTransform): ",
                );
                Error::Configuration(concat(head.as_str(), message.as_str()))
            } else {
                Error::Brp { method, message }
            }
        },
        other => other,
    }
}


/// The BRP method that writes a message into the game.
pub open spec fn write_message_method() -> Seq<char> {
    "world.write_message"@
}

/// The name of the BRP method that writes a message into the game.
pub fn write_message_method_name() -> (r: &'static str)
    ensures
        r@ == write_message_method(),
{
    proof {
        reveal_strlit("world.write_message");
    }
    "world.write_message"
}

/// The `extras` method that moves the cursor.
pub fn move_mouse_method_name() -> (r: &'static str)
    ensures
        r@ == "brp_extras/move_mouse"@,
{
    proof {
        reveal_strlit("brp_extras/move_mouse");
    }
    "brp_extras/move_mouse"
}

/// Reflected type paths of the messages and components that input uses.
pub fn keyboard_input_type_path() -> (r: &'static str)
    ensures
        r@ == "bevy_input::keyboard::KeyboardInput"@,
{
    proof {
        reveal_strlit("bevy_input::keyboard::KeyboardInput");
    }
    "bevy_input::keyboard::KeyboardInput"
}

pub fn mouse_button_input_type_path() -> (r: &'static str)
    ensures
        r@ == "bevy_input::mouse::MouseButtonInput"@,
{
    proof {
        reveal_strlit("bevy_input::mouse::MouseButtonInput");
    }
    "bevy_input::mouse::MouseButtonInput"
}

pub fn window_event_type_path() -> (r: &'static str)
    ensures
        r@ == "bevy_window::event::WindowEvent"@,
{
    proof {
        reveal_strlit("bevy_window::event::WindowEvent");
    }
    "bevy_window::event::WindowEvent"
}

pub fn window_type_path() -> (r: &'static str)
    ensures
        r@ == "bevy_window::window::Window"@,
{
    proof {
        reveal_strlit("bevy_window::window::Window");
    }
    "bevy_window::window::Window"
}

pub fn primary_window_type_path() -> (r: &'static str)
    ensures
        r@ == "bevy_window::window::PrimaryWindow"@,
{
    proof {
        reveal_strlit("bevy_window::window::PrimaryWindow");
    }
    "bevy_window::window::PrimaryWindow"
}

/// Bevy's reflected type path for `UiGlobalTransform`.
pub fn ui_global_transform_type_path() -> (r: &'static str)
    ensures
        r@ == "bevy_ui::ui_transform::UiGlobalTransform"@,
{
    proof {
        reveal_strlit("bevy_ui::ui_transform::UiGlobalTransform");
    }
    "bevy_ui::ui_transform::UiGlobalTransform"
}

/// The query for the primary window: its `Window` component, strictly.
pub fn primary_window_query_params() -> (r: Json)
    ensures
        r@ == crate::selector::query_params_view(
            "bevy_window::window::Window"@,
            "bevy_window::window::PrimaryWindow"@,
            false,
            true,
        ),
{
    crate::selector::query_params(window_type_path(), primary_window_type_path(), false, true)
}

/// A mouse button, as Bevy names it.
#[derive(Debug, Clone, Copy, PartialEq, Eq, Structural)]
pub enum MouseButton {
    Left,
    Right,
    Middle,
    Back,
    Forward,
    Other(u16),
}

/// How a mouse button is written in a BRP message.
pub open spec fn button_view(b: MouseButton) -> JsonView {
    match b {
        MouseButton::Left => JsonView::String("Left"@),
        MouseButton::Right => JsonView::String("Right"@),
        MouseButton::Middle => JsonView::String("Middle"@),
        MouseButton::Back => JsonView::String("Back"@),
        MouseButton::Forward => JsonView::String("Forward"@),
        MouseButton::Other(n) => JsonView::Object(seq![("Other"@, JsonView::Number(Number::PosInt(n as u64)))]),
    }
}

fn button_json(b: MouseButton) -> (r: Json)
    ensures
        r@ == button_view(b),
{
    match b {
        MouseButton::Left => Json::text("Left"),
        MouseButton::Right => Json::text("Right"),
        MouseButton::Middle => Json::text("Middle"),
        MouseButton::Back => Json::text("Back"),
        MouseButton::Forward => Json::text("Forward"),
        MouseButton::Other(n) => {
            let mut fields: Vec<(String, Json)> = Vec::new();
            fields.push(member("Other", Json::Number(Number::PosInt(n as u64))));
            let r = Json::object(fields);
            assert(members_view(fields@) =~= seq![("Other"@, JsonView::Number(Number::PosInt(n as u64)))]);
            r
        },
    }
}

/// A mouse button message names the button the caller gave: each named
/// button is written as its own Bevy variant name, an `Other` button with its
/// own code, and no two buttons are written alike. The message also carries
/// the caller's state and window.
pub proof fn lemma_mouse_message_names_its_button(b1: MouseButton, b2: MouseButton, pressed: bool, window: u64)
    ensures
        button_view(MouseButton::Left) == JsonView::String("Left"@),
        button_view(MouseButton::Right) == JsonView::String("Right"@),
        button_view(MouseButton::Middle) == JsonView::String("Middle"@),
        button_view(MouseButton::Back) == JsonView::String("Back"@),
        button_view(MouseButton::Forward) == JsonView::String("Forward"@),
        b1 matches MouseButton::Other(n) ==> button_view(b1) == JsonView::Object(
            seq![("Other"@, JsonView::Number(Number::PosInt(n as u64)))],
        ),
        button_view(b1) == button_view(b2) ==> b1 == b2,
        mouse_button_view(b1, pressed, window) == JsonView::Object(
            seq![
                ("button"@, button_view(b1)),
                ("state"@, JsonView::String(if pressed { "Pressed"@ } else { "Released"@ })),
                ("window"@, JsonView::Number(Number::PosInt(window))),
            ],
        ),
{
    reveal_strlit("Left");
    reveal_strlit("Right");
    reveal_strlit("Middle");
    reveal_strlit("Back");
    reveal_strlit("Forward");
    if button_view(b1) == button_view(b2) {
        match b1 {
            MouseButton::Other(n) => {
                if let MouseButton::Other(m) = b2 {
                    let s1 = button_view(b1)->Object_0;
                    let s2 = button_view(b2)->Object_0;
                    assert(s1[0] == s2[0]);
                }
            },
            _ => {
                if b1 != b2 {
                    let a = button_view(b1)->String_0;
                    let c = button_view(b2)->String_0;
                    assert(a.len() != c.len() || a[0] != c[0] || a[1] != c[1]);
                }
            },
        }
    }
}

/// How a button state is written: `Pressed` or `Released`.
pub open spec fn state_view(pressed: bool) -> JsonView {
    if pressed {
        JsonView::String("Pressed"@)
    } else {
        JsonView::String("Released"@)
    }
}

fn state_json(pressed: bool) -> (r: Json)
    ensures
        r@ == state_view(pressed),
{
    if pressed {
        Json::text("Pressed")
    } else {
        Json::text("Released")
    }
}

/// A keyboard input message for key `key` (Bevy's `KeyCode` variant name) in
/// `window`, with an unidentified logical key, no text and no repeat.
pub open spec fn keyboard_view(key: Seq<char>, pressed: bool, window: u64) -> JsonView {
    JsonView::Object(
        seq![
            ("key_code"@, JsonView::String(key)),
            ("logical_key"@, JsonView::Object(seq![("Unidentified"@, JsonView::String("Unidentified"@))])),
            ("state"@, state_view(pressed)),
            ("text"@, JsonView::Null),
            ("repeat"@, JsonView::Bool(false)),
            ("window"@, JsonView::Number(Number::PosInt(window))),
        ],
    )
}

/// Builds a keyboard input message.
pub fn keyboard_input(key: &str, pressed: bool, window: u64) -> (r: Json)
    ensures
        r@ == keyboard_view(key@, pressed, window),
{
    let mut logical: Vec<(String, Json)> = Vec::new();
    logical.push(member("Unidentified", Json::text("Unidentified")));
    let ghost lf = logical@;
    let logical = Json::object(logical);
    let ghost lv = logical@;
    let state = state_json(pressed);
    let ghost sv = state@;
    let mut fields: Vec<(String, Json)> = Vec::new();
    fields.push(member("key_code", Json::text(key)));
    fields.push(member("logical_key", logical));
    fields.push(member("state", state));
    fields.push(member("text", Json::Null));
    fields.push(member("repeat", Json::Bool(false)));
    fields.push(member("window", Json::Number(Number::PosInt(window))));
    let r = Json::object(fields);
    proof {
        assert(members_view(lf) =~= seq![("Unidentified"@, JsonView::String("Unidentified"@))]);
        assert(members_view(fields@) =~= keyboard_view(key@, pressed, window)->Object_0);
    }
    r
}

/// A mouse button input message for `button` in `window`.
pub open spec fn mouse_button_view(button: MouseButton, pressed: bool, window: u64) -> JsonView {
    JsonView::Object(
        seq![
            ("button"@, button_view(button)),
            ("state"@, state_view(pressed)),
            ("window"@, JsonView::Number(Number::PosInt(window))),
        ],
    )
}

/// Builds a mouse button input message.
pub fn mouse_button_input(button: MouseButton, pressed: bool, window: u64) -> (r: Json)
    ensures
        r@ == mouse_button_view(button, pressed, window),
{
    let b = button_json(button);
    let ghost bv = b@;
    let st = state_json(pressed);
    let ghost sv = st@;
    let mut fields: Vec<(String, Json)> = Vec::new();
    fields.push(member("button", b));
    fields.push(member("state", st));
    fields.push(member("window", Json::Number(Number::PosInt(window))));
    let r = Json::object(fields);
    assert(members_view(fields@) =~= mouse_button_view(button, pressed, window)->Object_0);
    r
}

/// The aggregate window event that wraps a typed input message: `{variant: event}`.
pub fn window_event(variant: &str, event: Json) -> (r: Json)
    ensures
        r@ == JsonView::Object(seq![(variant@, event@)]),
{
    let ghost ev = event@;
    let mut fields: Vec<(String, Json)> = Vec::new();
    fields.push(member(variant, event));
    let r = Json::object(fields);
    assert(members_view(fields@) =~= seq![(variant@, ev)]);
    r
}

/// Builds the parameters that write `value` as a message of type `type_path`.
pub fn write_message_params(type_path: &str, value: Json) -> (r: Json)
    ensures
        r@ == JsonView::Object(seq![("message"@, JsonView::String(type_path@)), ("value"@, value@)]),
{
    let ghost vv = value@;
    let mut fields: Vec<(String, Json)> = Vec::new();
    fields.push(member("message", Json::text(type_path)));
    fields.push(member("value", value));
    let r = Json::object(fields);
    assert(members_view(fields@) =~= seq![("message"@, JsonView::String(type_path@)), ("value"@, vv)]);
    r
}

/// A JSON number is zero as `as_f64` reads it: the integer 0, or a float of +0 or -0.
pub open spec fn is_zero(n: Number) -> bool {
    match n {
        Number::PosInt(v) => v == 0,
        Number::NegInt(v) => v == 0,
        Number::Float(bits) => bits == 0 || bits == 0x8000_0000_0000_0000u64,
    }
}

/// What the primary-window query yields: the first row's entity and the
/// window's `resolution.scale_factor`, or why not.
pub open spec fn primary_window_outcome(rows: JsonView, window_type: Seq<char>) -> Result<(u64, Number), ErrorView> {
    if !well_formed_rows(rows) {
        Err(ErrorView::Brp {
            method: "world.query"@,
            message: "malformed primary window query response: expected a list of rows with entity and components"@,
        })
    } else if rows->Array_0.len() == 0 {
        Err(ErrorView::Configuration("primary window entity was not found"@))
    } else {
        let row = rows->Array_0[0];
        match field(field(row, "components"@)->0, window_type) {
            None => Err(ErrorView::Configuration("primary window query missing Window component"@)),
            Some(window) => match field(window, "resolution"@) {
                Some(resolution) => match field(resolution, "scale_factor"@) {
                    Some(JsonView::Number(n)) => if is_zero(n) {
                        Err(ErrorView::Configuration("primary Window resolution.scale_factor must not be zero"@))
                    } else {
                        Ok((row_entity(row)->0, n))
                    },
                    _ => Err(ErrorView::Configuration("primary Window is missing numeric resolution.scale_factor"@)),
                },
                None => Err(ErrorView::Configuration("primary Window is missing numeric resolution.scale_factor"@)),
            },
        }
    }
}

fn missing_scale() -> (e: Error)
    ensures
        e@ == ErrorView::Configuration("primary Window is missing numeric resolution.scale_factor"@),
{
    proof {
        reveal_strlit("primary Window is missing numeric resolution.scale_factor");
    }
    Error::Configuration(String::from_str("primary Window is missing numeric resolution.scale_factor"))
}

/// Finds the primary window and its scale factor in a query response.
pub fn primary_window_from_rows(rows: &Json, window_type: &str) -> (r: Result<(u64, Number), Error>)
    ensures
        view_err(r) == primary_window_outcome(rows@, window_type@),
{
    proof {
        reveal_strlit("world.query");
        reveal_strlit("malformed primary window query response: expected a list of rows with entity and components");
        reveal_strlit("primary window entity was not found");
        reveal_strlit("primary window query missing Window component");
        reveal_strlit("primary Window resolution.scale_factor must not be zero");
    }
    if !rows_well_formed(rows) {
        return Err(Error::Brp {
            method: String::from_str("world.query"),
            message: String::from_str(
                "malformed primary window query response: expected a list of rows with entity and components",
            ),
        });
    }
    let row = match rows.at(0) {
        Some(row) => row,
        None => return Err(Error::Configuration(String::from_str("primary window entity was not found"))),
    };
    assert(row@ == rows@->Array_0[0]);
    assert(well_formed_row_at(rows@, 0));
    let entity = match row.get("entity") {
        Some(e) => match e.as_number() {
            Some(Number::PosInt(e)) => e,
            _ => return Err(missing_scale()),
        },
        None => return Err(missing_scale()),
    };
    let components = match row.get("components") {
        Some(c) => c,
        None => return Err(missing_scale()),
    };
    let window = match components.get(window_type) {
        Some(w) => w,
        None => return Err(Error::Configuration(String::from_str("primary window query missing Window component"))),
    };
    let resolution = match window.get("resolution") {
        Some(r) => r,
        None => return Err(missing_scale()),
    };
    let scale = match resolution.get("scale_factor") {
        Some(s) => s,
        None => return Err(missing_scale()),
    };
    let n = match scale.as_number() {
        Some(n) => n,
        None => return Err(missing_scale()),
    };
    let zero = match n {
        Number::PosInt(v) => v == 0,
        Number::NegInt(v) => v == 0,
        Number::Float(bits) => bits == 0 || bits == 0x8000_0000_0000_0000u64,
    };
    if zero {
        return Err(Error::Configuration(String::from_str("primary Window resolution.scale_factor must not be zero")));
    }
    Ok((entity, n))
}

/// Row `i` of a query response is well formed.
pub open spec fn well_formed_row_at(rows: JsonView, i: int) -> bool {
    crate::selector::well_formed_row(rows->Array_0[i])
}

/// The translation of a UI element, as the click reads it from its
/// `UiGlobalTransform` (a flat affine matrix): the numbers at indices 4 and 5.
pub open spec fn translation_outcome(id: Seq<char>, transform: JsonView) -> Result<(Number, Number), ErrorView> {
    if !(transform is Array) {
        Err(ErrorView::Configuration("selector `"@ + id + "` UiGlobalTransform is not an array"@))
    } else {
        match element(transform, 4) {
            Some(JsonView::Number(x)) => match element(transform, 5) {
                Some(JsonView::Number(y)) => Ok((x, y)),
                _ => Err(ErrorView::Configuration(
                    "selector `"@ + id + "` UiGlobalTransform missing numeric translation y at index 5"@,
                )),
            },
            _ => Err(ErrorView::Configuration(
                "selector `"@ + id + "` UiGlobalTransform missing numeric translation x at index 4"@,
            )),
        }
    }
}

/// Reads the translation of the UI element `id` from its transform.
pub fn ui_translation(id: &str, transform: &Json) -> (r: Result<(Number, Number), Error>)
    ensures
        view_err(r) == translation_outcome(id@, transform@),
{
    proof {
        reveal_strlit("selector `");
        reveal_strlit("` UiGlobalTransform is not an array");
        reveal_strlit("` UiGlobalTransform missing numeric translation x at index 4");
        reveal_strlit("` UiGlobalTransform missing numeric translation y at index 5");
    }
    let is_array = match transform {
        Json::Array(_) => true,
        _ => false,
    };
    if !is_array {
        let m = concat("selector `", id);
        return Err(Error::Configuration(concat(m.as_str(), "` UiGlobalTransform is not an array")));
    }
    let x = match transform.at(4) {
        Some(v) => v.as_number(),
        None => None,
    };
    let x = match x {
        Some(x) => x,
        None => {
            let m = concat("selector `", id);
            return Err(Error::Configuration(
                concat(m.as_str(), "` UiGlobalTransform missing numeric translation x at index 4"),
            ));
        },
    };
    let y = match transform.at(5) {
        Some(v) => v.as_number(),
        None => None,
    };
    match y {
        Some(y) => Ok((x, y)),
        None => {
            let m = concat("selector `", id);
            Err(Error::Configuration(concat(m.as_str(), "` UiGlobalTransform missing numeric translation y at index 5")))
        },
    }
}

} // verus!
