//! The error objects that the protocol reserves.

use crate::{JsonResult, Response};
use rustc_serialize::json::Json;
use vstd::prelude::*;

verus! {

/// The error conditions that the JSON-RPC protocol reserves a code for.
#[derive(Clone, Copy, Debug, PartialEq, Eq, Structural)]
pub enum StandardError {
    /// Invalid JSON was received by the server.
    ParseError,
    /// The JSON sent is not a valid request object.
    InvalidRequest,
    /// The method does not exist or is not available.
    MethodNotFound,
    /// Invalid method parameters.
    InvalidParams,
    /// Internal JSON-RPC error.
    InternalError,
}

impl StandardError {
    /// The code that the protocol fixes for this condition.
    pub open spec fn code(self) -> int {
        match self {
            StandardError::ParseError => -32700,
            StandardError::InvalidRequest => -32600,
            StandardError::MethodNotFound => -32601,
            StandardError::InvalidParams => -32602,
            StandardError::InternalError => -32603,
        }
    }

    /// The message that the protocol fixes for this condition.
    pub open spec fn message(self) -> Seq<char> {
        match self {
            StandardError::ParseError => "Parse error"@,
            StandardError::InvalidRequest => "Invalid Request"@,
            StandardError::MethodNotFound => "Method not found"@,
            StandardError::InvalidParams => "Invalid params"@,
            StandardError::InternalError => "Internal error"@,
        }
    }
}

/// A JSON-RPC error object.
#[derive(Debug)]
pub struct Error {
    /// The integer identifier of the error.
    pub code: isize,
    /// A string describing the error.
    pub message: String,
    /// Additional data specific to the error.
    pub data: Option<Json>,
}

impl Error {
    /// Whether this is the error object of the condition `kind`: it has that
    /// condition's code and message. The data is free.
    pub open spec fn is_standard(&self, kind: StandardError) -> bool {
        &&& self.code == kind.code()
        &&& self.message@ == kind.message()
    }
}

impl Clone for Error {
    /// The copy is the same error object: same code, message and data.
    fn clone(&self) -> (copy: Self)
        ensures
            copy == *self,
    {
        Error { code: self.code, message: self.message.clone(), data: self.data.clone() }
    }
}

/// Creates the error object of a reserved condition, with `data` attached as
/// it was given.
pub fn standard_error(kind: StandardError, data: Option<Json>) -> (err: Error)
    ensures
        err.code == kind.code(),
        err.message@ == kind.message(),
        err.data == data,
        err.is_standard(kind),
{
    match kind {
        StandardError::ParseError => Error {
            code: -32700,
            message: "Parse error".to_string(),
            data: data,
        },
        StandardError::InvalidRequest => Error {
            code: -32600,
            message: "Invalid Request".to_string(),
            data: data,
        },
        StandardError::MethodNotFound => Error {
            code: -32601,
            message: "Method not found".to_string(),
            data: data,
        },
        StandardError::InvalidParams => Error {
            code: -32602,
            message: "Invalid params".to_string(),
            data: data,
        },
        StandardError::InternalError => Error {
            code: -32603,
            message: "Internal error".to_string(),
            data: data,
        },
    }
}

/// Converts a handler's outcome to the response object that answers the
/// request `id`.
pub fn result_to_response(result: JsonResult<Json>, id: Json) -> (resp: Response)
    ensures
        resp == Response::answering(result, id),
        resp.well_formed(),
        resp.id == id,
        resp.result.is_some() == result.is_ok(),
        resp.error.is_some() == result.is_err(),
{
    match result {
        Ok(data) => Response { result: Some(data), error: None, id: id },
        Err(err) => Response { result: None, error: Some(err), id: id },
    }
}

/// Every reserved code lies in the range that the protocol sets aside for
/// its own errors, so none can collide with an application's code.
pub proof fn lemma_code_is_reserved(kind: StandardError)
    ensures
        -32768 <= kind.code() <= -32000,
{
}

/// The code alone tells which condition is meant: no two conditions share one.
pub proof fn lemma_code_determines_kind(a: StandardError, b: StandardError)
    requires
        a.code() == b.code(),
    ensures
        a == b,
{
}

} // verus!
