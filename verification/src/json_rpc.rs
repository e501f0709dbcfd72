//! JSON-RPC message model for the text (V1) protocol generation.
//!
//! Three shapes travel on the wire: a standard request (scalar id, method
//! name, parameter list), a notification (the same, but the id is the null
//! sentinel) and a response (the request's id, a result or an error).

use vstd::prelude::*;
use crate::utils::str_eq;

verus! {

/// A scalar message identifier: an integer or a string.
#[derive(Debug, PartialEq, Eq)]
pub enum Id {
    Num(u64),
    Str(String),
}

/// The mathematical shape of an identifier.
pub enum IdView {
    Num(u64),
    Str(Seq<char>),
}

impl View for Id {
    type V = IdView;

    open spec fn view(&self) -> IdView {
        match self {
            Id::Num(n) => IdView::Num(*n),
            Id::Str(s) => IdView::Str(s@),
        }
    }
}

impl Id {
    /// A copy that names the same identifier.
    pub fn duplicate(&self) -> (r: Id)
        ensures
            r@ == self@,
    {
        match self {
            Id::Num(n) => Id::Num(*n),
            Id::Str(s) => Id::Str(s.clone()),
        }
    }
}

/// Identifier equality, as the correlation table sees it.
pub fn id_eq(a: &Id, b: &Id) -> (r: bool)
    ensures
        r == (a@ == b@),
{
    match (a, b) {
        (Id::Num(x), Id::Num(y)) => x == y,
        (Id::Str(x), Id::Str(y)) => str_eq(x.as_str(), y.as_str()),
        _ => false,
    }
}

/// A parameter or result value, mirroring the JSON shapes the external
/// byte-level codec produces.
pub enum Value {
    Null,
    Bool(bool),
    Num(i64),
    Str(String),
    List(Vec<Value>),
}

/// The value is the given string.
pub open spec fn v_str(v: Value, s: Seq<char>) -> bool {
    v matches Value::Str(x) && x@ == s
}

/// The value is the given number.
pub open spec fn v_num(v: Value, n: i64) -> bool {
    v matches Value::Num(x) && x == n
}

/// The value is the given boolean.
pub open spec fn v_bool(v: Value, b: bool) -> bool {
    v matches Value::Bool(x) && x == b
}

/// The value is the hex rendering of the given bytes.
pub open spec fn v_hex(v: Value, bs: Seq<u8>) -> bool {
    v matches Value::Str(x) && x@ == crate::utils::spec_hex(bs)
}

/// The value is the eight-character hex rendering of the given word.
pub open spec fn v_hex32(v: Value, x: u32) -> bool {
    v matches Value::Str(s) && s@ == crate::utils::spec_u32_hex(x)
}

/// A request that expects a response.
pub struct StandardRequest {
    pub id: Id,
    pub method: String,
    pub params: Vec<Value>,
}

/// A request that expects none; its id is the null sentinel.
pub struct Notification {
    pub method: String,
    pub params: Vec<Value>,
}

/// The ordered (code, message[, data]) error tuple of a response.
pub struct JsonRpcError {
    pub code: i64,
    pub message: String,
    pub data: Option<Value>,
}

/// The answer to a standard request.
pub struct Response {
    pub id: Id,
    pub result: Option<Value>,
    pub error: Option<JsonRpcError>,
}

impl Response {
    /// Exactly one of `result` and `error` is populated.
    pub open spec fn wf(self) -> bool {
        (self.result is Some) != (self.error is Some)
    }
}

/// One wire message, already classified by shape: a null id makes a
/// notification, a method field makes a request, anything else answers one.
pub enum Message {
    StandardRequest(StandardRequest),
    Notification(Notification),
    Response(Response),
}

impl Message {
    /// Dispatch guard: does this message answer a request?
    pub fn is_response(&self) -> (r: bool)
        ensures
            r == (*self is Response),
    {
        match self {
            Message::Response(_) => true,
            _ => false,
        }
    }
}

} // verus!
