//! Error objects and response construction for a JSON-RPC endpoint.
//!
//! A handler ends either with a value or with an [`error::Error`]. This crate
//! holds the table of error objects that the protocol reserves and the rule
//! that turns a handler's outcome into a [`Response`], which carries a result
//! or an error and never both. JSON values themselves are
//! `rustc_serialize::json::Json`: they are carried, never looked into.

use rustc_serialize::json::Json;
use vstd::prelude::*;

pub mod error;

verus! {

/// `rustc_serialize::json::Json`, a JSON value. Nothing is claimed of what
/// such a value holds: the library moves it from an argument into a field and
/// compares it only in contracts, where `==` is identity of the value.
#[verifier::external_type_specification]
#[verifier::external_body]
pub struct ExJson(rustc_serialize::json::Json);

/// The `Clone` that `rustc_serialize` derives for `Json`. It copies the value
/// part by part, so the copy is taken to be the same JSON value as the
/// original.
pub assume_specification[ <Json as Clone>::clone ](value: &Json) -> (copy: Json)
    ensures
        copy == *value,
;

/// What a handler ends with: a value, or an error object.
pub type JsonResult<T> = Result<T, error::Error>;

/// A JSON-RPC response object.
#[derive(Debug)]
pub struct Response {
    /// The value that the handler returned; present on success only.
    pub result: Option<Json>,
    /// The error that the handler failed with; present on failure only.
    pub error: Option<error::Error>,
    /// The identifier of the request that is answered.
    pub id: Json,
}

impl Response {
    /// A response carries a result or an error: one of them, never both,
    /// never neither.
    pub open spec fn well_formed(&self) -> bool {
        self.result.is_some() != self.error.is_some()
    }

    /// The response that answers the request `id` with `outcome`.
    pub open spec fn answering(outcome: JsonResult<Json>, id: Json) -> Response {
        match outcome {
            Ok(value) => Response { result: Some(value), error: None, id: id },
            Err(err) => Response { result: None, error: Some(err), id: id },
        }
    }
}

/// Whatever the outcome and the identifier, the response that answers them
/// carries exactly one of result and error, and its id is the identifier as
/// it was given.
pub proof fn lemma_answering_well_formed(outcome: JsonResult<Json>, id: Json)
    ensures
        Response::answering(outcome, id).well_formed(),
        Response::answering(outcome, id).id == id,
        Response::answering(outcome, id).result.is_some() == outcome.is_ok(),
        Response::answering(outcome, id).error.is_some() == outcome.is_err(),
{
}

/// Nothing is lost on the way into a response: two responses are the same
/// only if they answer the same identifier with the same outcome.
pub proof fn lemma_answering_injective(
    first: JsonResult<Json>,
    first_id: Json,
    second: JsonResult<Json>,
    second_id: Json,
)
    requires
        Response::answering(first, first_id) == Response::answering(second, second_id),
    ensures
        first == second,
        first_id == second_id,
{
}

impl Clone for Response {
    /// The copy is the same response: same result, same error, same id.
    fn clone(&self) -> (copy: Self)
        ensures
            copy == *self,
    {
        Response {
            result: self.result.clone(),
            error: self.error.clone(),
            id: self.id.clone(),
        }
    }
}

} // verus!
