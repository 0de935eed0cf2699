use bevy_e2e::input::{
    is_missing_or_invalid_component_brp, keyboard_input, map_click_component_error,
    mouse_button_input, primary_window_from_rows, ui_translation, window_event,
    write_message_params, MouseButton,
};
use bevy_e2e::{Error, ExitReport, Json, Number};
use std::time::Duration;

fn text(s: &str) -> Json {
    Json::String(s.to_owned())
}

fn object(members: Vec<(&str, Json)>) -> Json {
    Json::Object(members.into_iter().map(|(k, v)| (k.to_owned(), v)).collect())
}

#[test]
fn remaps_missing_component_brp_to_configuration() {
    let err = Error::Brp {
        method: "world.get_components".to_owned(),
        message:
            "Component `bevy_ui::ui_transform::UiGlobalTransform` not present in Entity 12v1"
                .to_owned(),
    };
    match map_click_component_error("main_menu.play", err) {
        Error::Configuration(message) => {
            assert!(
                message.contains("not a Bevy UI click target"),
                "expected UI click configuration message, got {message}"
            );
            assert!(message.contains("not present"));
        }
        other => panic!("expected Configuration, got {other:?}"),
    }
}

#[test]
fn preserves_non_ui_transport_brp_errors() {
    let err = Error::Brp {
        method: "world.get_components".to_owned(),
        message: "Connection refused (os error 111)".to_owned(),
    };
    match map_click_component_error("main_menu.play", err) {
        Error::Brp { method, message } => {
            assert_eq!(method, "world.get_components");
            assert_eq!(message, "Connection refused (os error 111)");
            assert!(
                !message.contains("not a Bevy UI click target"),
                "transport Brp must not be remapped into configuration wording"
            );
        }
        other => panic!("expected Error::Brp preserved, got {other:?}"),
    }
}

#[test]
fn preserves_malformed_brp_response_errors() {
    let err = Error::Brp {
        method: "world.get_components".to_owned(),
        message: "malformed BRP response: expected value at line 1 column 1".to_owned(),
    };
    match map_click_component_error("player", err) {
        Error::Brp { message, .. } => {
            assert!(message.starts_with("malformed BRP response"));
        }
        other => panic!("expected Error::Brp preserved, got {other:?}"),
    }
}

#[test]
fn preserves_timeout_and_child_exited() {
    let timeout = Error::Timeout {
        operation: "brp world.get_components".to_owned(),
        timeout: Duration::from_secs(5),
    };
    assert!(matches!(
        map_click_component_error("x", timeout),
        Error::Timeout { .. }
    ));

    let child = Error::ChildExited(ExitReport {
        code: Some(0),
        description: "exit status: 0".to_owned(),
    });
    assert!(matches!(
        map_click_component_error("x", child),
        Error::ChildExited(_)
    ));
}

#[test]
fn marker_detection_is_narrow() {
    assert!(is_missing_or_invalid_component_brp(
        "Component `bevy_ui::ui_transform::UiGlobalTransform` not present in Entity 1v0"
    ));
    assert!(is_missing_or_invalid_component_brp(
        "Unknown component type: `bevy_ui::ui_transform::UiGlobalTransform`"
    ));
    assert!(is_missing_or_invalid_component_brp(
        "strict get_components response missing `bevy_ui::ui_transform::UiGlobalTransform`"
    ));
    assert!(!is_missing_or_invalid_component_brp(
        "Connection refused (os error 111)"
    ));
    assert!(!is_missing_or_invalid_component_brp(
        "malformed BRP response: missing result/error"
    ));
    assert!(!is_missing_or_invalid_component_brp("Method not found"));
}

#[test]
fn remapped_click_error_has_the_exact_wording() {
    let err = Error::Brp {
        method: "world.get_components".to_owned(),
        message: "Type `Foo` isn't registered".to_owned(),
    };
    assert_eq!(
        map_click_component_error("hud", err),
        Error::Configuration(
            "selector `hud` is not a Bevy UI click target (missing or invalid UiGlobalTransform): Type `Foo` isn't registered"
                .to_owned()
        )
    );
}

#[test]
fn keyboard_reaches_button_input() {
    let event = keyboard_input("Space", true, 42);
    let expected = object(vec![
        ("key_code", text("Space")),
        ("logical_key", object(vec![("Unidentified", text("Unidentified"))])),
        ("state", text("Pressed")),
        ("text", Json::Null),
        ("repeat", Json::Bool(false)),
        ("window", Json::Number(Number::PosInt(42))),
    ]);
    assert_eq!(event, expected);
    let wrapped = window_event("KeyboardInput", keyboard_input("Space", false, 42));
    match wrapped {
        Json::Object(members) => {
            assert_eq!(members.len(), 1);
            assert_eq!(members[0].0, "KeyboardInput");
        }
        other => panic!("expected an object, got {other:?}"),
    }
}

#[test]
fn mouse_button_reaches_button_input() {
    let left = mouse_button_input(MouseButton::Left, false, 7);
    assert_eq!(
        left,
        object(vec![
            ("button", text("Left")),
            ("state", text("Released")),
            ("window", Json::Number(Number::PosInt(7))),
        ])
    );
    let other = mouse_button_input(MouseButton::Other(9), true, 7);
    assert_eq!(
        other,
        object(vec![
            ("button", object(vec![("Other", Json::Number(Number::PosInt(9)))])),
            ("state", text("Pressed")),
            ("window", Json::Number(Number::PosInt(7))),
        ])
    );
    let params = write_message_params("bevy_window::event::WindowEvent", Json::Null);
    assert_eq!(
        params,
        object(vec![
            ("message", text("bevy_window::event::WindowEvent")),
            ("value", Json::Null),
        ])
    );
}

fn window_rows(scale: Json) -> Json {
    Json::Array(vec![object(vec![
        ("entity", Json::Number(Number::PosInt(3))),
        (
            "components",
            object(vec![(
                "bevy_window::window::Window",
                object(vec![("resolution", object(vec![("scale_factor", scale)]))]),
            )]),
        ),
    ])])
}

#[test]
fn primary_window_reads_entity_and_scale() {
    let two = Json::Number(Number::Float(2.0f64.to_bits()));
    assert_eq!(
        primary_window_from_rows(&window_rows(two), "bevy_window::window::Window"),
        Ok((3, Number::Float(2.0f64.to_bits())))
    );
    let zero = Json::Number(Number::Float((-0.0f64).to_bits()));
    assert_eq!(
        primary_window_from_rows(&window_rows(zero), "bevy_window::window::Window"),
        Err(Error::Configuration(
            "primary Window resolution.scale_factor must not be zero".to_owned()
        ))
    );
    assert_eq!(
        primary_window_from_rows(&window_rows(text("1")), "bevy_window::window::Window"),
        Err(Error::Configuration(
            "primary Window is missing numeric resolution.scale_factor".to_owned()
        ))
    );
    assert_eq!(
        primary_window_from_rows(&Json::Array(vec![]), "bevy_window::window::Window"),
        Err(Error::Configuration("primary window entity was not found".to_owned()))
    );
    assert_eq!(
        primary_window_from_rows(&window_rows(Json::Null), "bevy_window::window::Other"),
        Err(Error::Configuration(
            "primary window query missing Window component".to_owned()
        ))
    );
    assert!(matches!(
        primary_window_from_rows(&Json::Null, "bevy_window::window::Window"),
        Err(Error::Brp { .. })
    ));
}

#[test]
fn ui_global_transform_brp_shape_is_pinned() {
    let transform = Json::Array(
        (0..6u64)
            .map(|i| Json::Number(Number::PosInt(i * 10)))
            .collect(),
    );
    assert_eq!(
        ui_translation("play", &transform),
        Ok((Number::PosInt(40), Number::PosInt(50)))
    );
    assert_eq!(
        ui_translation("play", &Json::Null),
        Err(Error::Configuration(
            "selector `play` UiGlobalTransform is not an array".to_owned()
        ))
    );
    let short = Json::Array((0..5).map(|_| Json::Null).collect());
    assert_eq!(
        ui_translation("play", &short),
        Err(Error::Configuration(
            "selector `play` UiGlobalTransform missing numeric translation x at index 4".to_owned()
        ))
    );
    let mut no_y: Vec<Json> = (0..5u64).map(|i| Json::Number(Number::PosInt(i))).collect();
    no_y.push(text("y"));
    assert_eq!(
        ui_translation("play", &Json::Array(no_y)),
        Err(Error::Configuration(
            "selector `play` UiGlobalTransform missing numeric translation y at index 5".to_owned()
        ))
    );
}
