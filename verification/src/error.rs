//! Errors the V1 protocol state machines surface to their callers.

use vstd::prelude::*;
use crate::json_rpc::Id;
use crate::methods::{Method, ParsingMethodError};

verus! {

/// Why an inbound message or an outbound builder was refused. Validation
/// failures leave session state untouched.
pub enum Error {
    /// A role received a message kind it never handles: the server takes
    /// no responses, as it never issues requests.
    InvalidJsonRpcMessageKind,
    /// The message is valid on the wire but travels in the wrong direction
    /// for this endpoint.
    InvalidReceiver(Method),
    /// A response id matches no outstanding request.
    UnknownID(Id),
    /// A submit failed one of the three validation clauses.
    InvalidSubmission,
    /// An outbound builder was invoked in a state that forbids it.
    StateViolation,
    /// The message could not be mapped to a typed method.
    Parsing(ParsingMethodError),
}

} // verus!
