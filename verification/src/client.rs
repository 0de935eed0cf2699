use std::time::Duration;
use vstd::prelude::*;

use crate::error::{json_result_view, Error, ErrorView};
use crate::json::{field, member, members_view, text_of, Json, JsonView, Number};
use crate::text::{concat, decimal, decimal_string, starts_with};

verus! {

/// The loopback URL of the BRP HTTP endpoint on `port`.
pub open spec fn brp_url(port: u16) -> Seq<char> {
    "http://127.0.0.1:"@ + decimal(port as nat) + "/"@
}

/// Where and how long a one-response BRP call is made (no SSE/watch support).
pub struct BrpClient {
    url: String,
    timeout: Duration,
}

impl BrpClient {
    /// A client for the BRP endpoint on loopback `port`, each call bounded by `timeout`.
    pub fn new(port: u16, timeout: Duration) -> (res: Self)
        ensures
            res.url()@ == brp_url(port),
            res.timeout() == timeout,
    {
        proof {
            reveal_strlit("http://127.0.0.1:");
            reveal_strlit("/");
        }
        let head = concat("http://127.0.0.1:", decimal_string(port as u64).as_str());
        BrpClient { url: concat(head.as_str(), "/"), timeout }
    }

    pub closed spec fn url(&self) -> String {
        self.url
    }

    pub closed spec fn timeout(&self) -> Duration {
        self.timeout
    }

    /// The endpoint URL.
    pub fn endpoint(&self) -> (r: &str)
        ensures
            r@ == self.url()@,
    {
        self.url.as_str()
    }

    /// The bound on each call.
    pub fn call_timeout(&self) -> (r: Duration)
        ensures
            r == self.timeout(),
    {
        self.timeout
    }
}

/// The JSON-RPC request body for one call: `{"method", "id", "params"}`.
pub open spec fn request_view(method: Seq<char>, id: u64, params: JsonView) -> JsonView {
    JsonView::Object(
        seq![
            ("method"@, JsonView::String(method)),
            ("id"@, JsonView::Number(Number::PosInt(id))),
            ("params"@, params),
        ],
    )
}

/// Builds the JSON-RPC request body for one call.
pub fn request_json(method: &str, id: u64, params: Json) -> (r: Json)
    ensures
        r@ == request_view(method@, id, params@),
{
    let ghost p = params@;
    let mut fields: Vec<(String, Json)> = Vec::new();
    fields.push(member("method", Json::text(method)));
    fields.push(member("id", Json::Number(Number::PosInt(id))));
    fields.push(member("params", params));
    let r = Json::object(fields);
    assert(members_view(fields@) =~= request_view(method@, id, p)->Object_0);
    r
}

/// The media type of a server-sent event stream, which this client refuses.
pub open spec fn is_event_stream(content_type: Seq<char>) -> bool {
    let marker = "text/event-stream"@;
    marker.len() <= content_type.len() && content_type.subrange(0, marker.len() as int) == marker
}

/// The error for a response that is a watch/SSE stream, or `None` when the
/// response is an ordinary one-response reply.
pub fn watch_rejection(method: &str, content_type: &str) -> (r: Option<Error>)
    ensures
        is_event_stream(content_type@) ==> (r matches Some(e) && e@ == ErrorView::UnsupportedWatch(
            method@,
        )),
        !is_event_stream(content_type@) ==> r is None,
{
    if starts_with(content_type, "text/event-stream") {
        Some(Error::UnsupportedWatch(method.to_owned()))
    } else {
        None
    }
}

/// The message of a BRP error object, or `unknown BRP error` when it has none.
pub open spec fn remote_error_message(error: JsonView) -> Seq<char> {
    match text_of(field(error, "message"@)) {
        Some(m) => m,
        None => "unknown BRP error"@,
    }
}

/// What one BRP call yields from its response body, or from the text of the
/// failure to parse it: the `result` member when there is one; otherwise the
/// remote `error` as a BRP error of `method`; otherwise a malformed-response error.
pub open spec fn brp_outcome(method: Seq<char>, body: Result<JsonView, Seq<char>>) -> Result<
    JsonView,
    ErrorView,
> {
    match body {
        Err(parse_error) => Err(
            ErrorView::Brp { method, message: "malformed BRP response: "@ + parse_error },
        ),
        Ok(b) => match field(b, "result"@) {
            Some(result) => Ok(result),
            None => match field(b, "error"@) {
                Some(error) => Err(
                    ErrorView::Brp { method, message: remote_error_message(error) },
                ),
                None => Err(
                    ErrorView::Brp {
                        method,
                        message: "malformed BRP response: missing result/error"@,
                    },
                ),
            },
        },
    }
}

/// The body as the client parsed it: JSON, or the parser's error text.
pub open spec fn body_view(body: Result<Json, String>) -> Result<JsonView, Seq<char>> {
    match body {
        Ok(j) => Ok(j@),
        Err(s) => Err(s@),
    }
}

/// Interprets the (non-stream) response body of a BRP call to `method`.
pub fn brp_response_outcome(method: &str, body: Result<Json, String>) -> (r: Result<Json, Error>)
    ensures
        json_result_view(r) == brp_outcome(method@, body_view(body)),
{
    proof {
        reveal_strlit("malformed BRP response: ");
        reveal_strlit("malformed BRP response: missing result/error");
        reveal_strlit("unknown BRP error");
    }
    match body {
        Err(parse_error) => Err(
            Error::Brp {
                method: method.to_owned(),
                message: concat("malformed BRP response: ", parse_error.as_str()),
            },
        ),
        Ok(b) => {
            if b.get("result").is_some() {
                match b.into_field("result") {
                    Some(result) => Ok(result),
                    None => Err(
                        Error::Brp {
                            method: method.to_owned(),
                            message: String::from_str("malformed BRP response: missing result/error"),
                        },
                    ),
                }
            } else {
                match b.get("error") {
                    Some(error) => {
                        let message = match error.get("message") {
                            Some(m) => match m.as_str() {
                                Some(s) => s.to_owned(),
                                None => String::from_str("unknown BRP error"),
                            },
                            None => String::from_str("unknown BRP error"),
                        };
                        Err(Error::Brp { method: method.to_owned(), message })
                    },
                    None => Err(
                        Error::Brp {
                            method: method.to_owned(),
                            message: String::from_str("malformed BRP response: missing result/error"),
                        },
                    ),
                }
            }
        },
    }
}

} // verus!
