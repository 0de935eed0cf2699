use bevy_e2e::client::{brp_response_outcome, request_json, watch_rejection, BrpClient};
use bevy_e2e::{Error, Json, Number};
use std::time::Duration;

fn text(s: &str) -> Json {
    Json::String(s.to_owned())
}

fn object(members: Vec<(&str, Json)>) -> Json {
    Json::Object(members.into_iter().map(|(k, v)| (k.to_owned(), v)).collect())
}

#[test]
fn returns_instant_result() {
    // {"jsonrpc":"2.0","id":1,"result":["bevy_time::Time"]}
    let body = object(vec![
        ("jsonrpc", text("2.0")),
        ("id", Json::Number(Number::PosInt(1))),
        ("result", Json::Array(vec![text("bevy_time::Time")])),
    ]);
    let result = brp_response_outcome("world.list_resources", Ok(body)).expect("instant result");
    assert_eq!(result, Json::Array(vec![text("bevy_time::Time")]));

    let request = request_json("world.list_resources", 1, object(vec![]));
    assert_eq!(request.get("method"), Some(&text("world.list_resources")));
    assert!(request.get("id").is_some());
}

#[test]
fn preserves_remote_method_and_error_message() {
    // {"jsonrpc":"2.0","id":1,"error":{"code":-32601,"message":"Method not found"}}
    let body = object(vec![
        ("jsonrpc", text("2.0")),
        ("id", Json::Number(Number::PosInt(1))),
        (
            "error",
            object(vec![
                ("code", Json::Number(Number::NegInt(-32601))),
                ("message", text("Method not found")),
            ]),
        ),
    ]);
    let err = brp_response_outcome("missing.method", Ok(body)).expect_err("remote error");
    match err {
        Error::Brp { method, message } => {
            assert_eq!(method, "missing.method");
            assert_eq!(message, "Method not found");
        }
        other => panic!("expected Error::Brp, got {other:?}"),
    }
}

#[test]
fn rejects_event_stream_response() {
    let err = watch_rejection("world.get_components+watch", "text/event-stream")
        .expect("SSE rejected");
    match err {
        Error::UnsupportedWatch(detail) => {
            assert!(
                detail.contains("world.get_components+watch")
                    || detail.contains("text/event-stream"),
                "unexpected UnsupportedWatch detail: {detail}"
            );
        }
        other => panic!("expected Error::UnsupportedWatch, got {other:?}"),
    }
}

#[test]
fn json_content_is_not_a_watch() {
    assert_eq!(watch_rejection("world.query", "application/json"), None);
    assert!(watch_rejection("m", "text/event-stream; charset=utf-8").is_some());
    assert_eq!(watch_rejection("m", "text/event"), None);
}

#[test]
fn error_without_message_and_missing_members() {
    let body = object(vec![("error", object(vec![("code", Json::Number(Number::PosInt(1)))]))]);
    assert_eq!(
        brp_response_outcome("m", Ok(body)),
        Err(Error::Brp { method: "m".to_owned(), message: "unknown BRP error".to_owned() })
    );
    assert_eq!(
        brp_response_outcome("m", Ok(object(vec![("id", Json::Null)]))),
        Err(Error::Brp {
            method: "m".to_owned(),
            message: "malformed BRP response: missing result/error".to_owned()
        })
    );
    assert_eq!(
        brp_response_outcome("m", Err("EOF while parsing".to_owned())),
        Err(Error::Brp {
            method: "m".to_owned(),
            message: "malformed BRP response: EOF while parsing".to_owned()
        })
    );
    // A null result is still a result.
    assert_eq!(
        brp_response_outcome("m", Ok(object(vec![("result", Json::Null), ("error", Json::Null)]))),
        Ok(Json::Null)
    );
}

#[test]
fn request_body_has_method_id_and_params() {
    let request = request_json("world.query", 7, Json::Bool(true));
    assert_eq!(
        request,
        object(vec![
            ("method", text("world.query")),
            ("id", Json::Number(Number::PosInt(7))),
            ("params", Json::Bool(true)),
        ])
    );
}

#[test]
fn client_targets_loopback_port() {
    let client = BrpClient::new(15702, Duration::from_millis(200));
    assert_eq!(client.endpoint(), "http://127.0.0.1:15702/");
    assert_eq!(client.call_timeout(), Duration::from_millis(200));
    assert_eq!(BrpClient::new(0, Duration::from_secs(1)).endpoint(), "http://127.0.0.1:0/");
}
