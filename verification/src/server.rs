//! The socket request/response channel: one `{method, data}` message per
//! read, dispatched by method name, with the raw received bytes echoed back
//! unmodified.
//!
//! The accept loop and the reads and writes live with the runner; this
//! module decides what one received buffer means for the connection. There
//! is no length prefix and no delimiter: a message must arrive whole in one
//! read.

use vstd::prelude::*;
use vstd::string::StringExecFns;

verus! {

#[verifier::external_type_specification]
#[verifier::external_body]
pub struct ExValue(serde_json::Value);

/// One request as it arrives on the socket.
pub struct Message {
    /// The method name to dispatch on.
    pub method: String,
    /// The request's payload, kept as it was decoded.
    pub data: serde_json::Value,
}

/// What a received buffer decodes to: the method string when the bytes parse
/// as a JSON object holding a string `method` field and a `data` field, and
/// nothing otherwise. Decoding is a function of the bytes alone.
pub uninterp spec fn request_method(bytes: Seq<u8>) -> Option<Seq<char>>;

/// Relies on serde_json::from_slice (decoding to serde_json::Value): the
/// bytes decode to a JSON document or fail, and the `method` and `data`
/// fields are read from the decoded object; the outcome depends on the bytes
/// alone.
#[verifier::external_body]
fn decode_request(buf: &Vec<u8>) -> (r: Option<Message>)
    ensures
        match r {
            Some(m) => request_method(buf@) == Some(m.method@),
            None => request_method(buf@) is None,
        },
{
    let v: serde_json::Value = match serde_json::from_slice(buf.as_slice()) {
        Ok(v) => v,
        Err(_) => return None,
    };
    let method = match v.get("method").and_then(|m| m.as_str()) {
        Some(m) => m.to_string(),
        None => return None,
    };
    let data = match v.get("data") {
        Some(d) => d.clone(),
        None => return None,
    };
    Some(Message { method, data })
}

/// How a request is dispatched: only the window-info method has handling
/// logic; every other method name is noted as unknown and otherwise ignored.
#[derive(Clone, Copy, PartialEq, Eq, Debug)]
pub enum MethodKind {
    WindowInfo,
    Unknown,
}

/// The dispatch rule, by method name alone.
pub open spec fn method_kind(method: Seq<char>) -> MethodKind {
    if method == "window-info"@ {
        MethodKind::WindowInfo
    } else {
        MethodKind::Unknown
    }
}

/// Dispatch one decoded message by its method name.
pub fn process_message(message: &Message) -> (r: MethodKind)
    ensures
        r == method_kind(message.method@),
{
    let pattern = String::from_str("window-info");
    if message.method == pattern {
        MethodKind::WindowInfo
    } else {
        MethodKind::Unknown
    }
}

/// What one received buffer means for the connection.
#[derive(PartialEq, Eq, Debug)]
pub enum ConnectionAction {
    /// Zero bytes were read: the peer closed in order; end the connection's
    /// task.
    Close,
    /// The bytes did not decode: keep the connection open and send nothing.
    Ignore,
    /// The bytes decoded: echo exactly the received bytes back, dispatched
    /// as noted. A failed write then closes the connection.
    Respond(Vec<u8>, MethodKind),
}

/// Decide what one read from the connection means: orderly close on an empty
/// read, nothing on a buffer that does not decode, and otherwise the echo of
/// exactly the received bytes together with the dispatch of the decoded
/// method.
pub fn connection_step(buf: Vec<u8>) -> (r: ConnectionAction)
    ensures
        buf@.len() == 0 ==> r == ConnectionAction::Close,
        buf@.len() > 0 && request_method(buf@) is None ==> r == ConnectionAction::Ignore,
        buf@.len() > 0 && request_method(buf@) is Some ==> (r matches ConnectionAction::Respond(
            echo,
            kind,
        ) && echo@ == buf@ && kind == method_kind(request_method(buf@).unwrap())),
{
    if buf.len() == 0 {
        return ConnectionAction::Close;
    }
    match decode_request(&buf) {
        Some(message) => {
            let kind = process_message(&message);
            ConnectionAction::Respond(buf, kind)
        },
        None => ConnectionAction::Ignore,
    }
}

} // verus!
