//! Errors that a request is answered with.
use vstd::prelude::*;

verus! {

/// The JSON-RPC code for parameters that a method does not accept.
pub const INVALID_PARAMS_CODE: i32 = -32602;

/// The JSON-RPC code for a failure inside the server.
pub const INTERNAL_ERROR_CODE: i32 = -32603;

/// The code and message that a failed request is answered with.
#[derive(Debug, PartialEq, Eq)]
pub struct ErrorObject {
    pub code: i32,
    pub message: String,
}

} // verus!
