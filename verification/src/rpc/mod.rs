//! Request handling: parameter shapes and their defaults, the account and
//! signing operations, and the error model.

pub mod common;
pub mod error;
pub mod serves;
pub mod signing;

pub use self::error::{ServiceError, INTERNAL_ERROR, INVALID_PARAMS};

use crate::rpc::error::ErrorKind;
use vstd::std_specs::convert::FromSpec;
use crate::storage::keyfile::error::KeystoreError;
use vstd::prelude::*;
use vstd::string::*;

verus! {

/// A failure as the transport reports it: a stable code and a text.
#[derive(Debug)]
pub struct RpcFailure {
    pub code: i64,
    pub message: String,
}

/// Turns the outcome of an operation into what the transport answers.
/// `value` is the outcome, its success already turned into the transport's
/// value model, which may fail too. A failure of the operation is reported
/// with the code of its kind and the text of the error, and nothing else; a
/// failure of the value model with the code of a failure inside the
/// service.
pub fn wrapper(value: Result<Result<serde_json::Value, serde_json::Error>, ServiceError>) -> (r:
    Result<serde_json::Value, RpcFailure>)
    ensures
        match value {
            Err(e) => {
                &&& r matches Err(failure)
                &&& failure.code == e.code_spec()
                &&& failure.message@ == e.message_spec()
            },
            Ok(Ok(answer)) => r matches Ok(got) && got == answer,
            Ok(Err(e)) => {
                &&& r matches Err(failure)
                &&& failure.code == INTERNAL_ERROR
                &&& to_string_from_display_ensures::<serde_json::Error>(&e, failure.message)
            },
        },
{
    match value {
        Err(e) => Err(RpcFailure { code: e.code(), message: e.message() }),
        Ok(Ok(answer)) => Ok(answer),
        Ok(Err(e)) => Err(RpcFailure { code: INTERNAL_ERROR, message: e.to_string() }),
    }
}

impl From<KeystoreError> for RpcFailure {
    /// A failure of the store is reported with the code and the text that
    /// it has as a failure of an operation.
    fn from(err: KeystoreError) -> (r: RpcFailure)
        ensures
            r.code == ServiceError::from_spec(err).code_spec(),
            r.message@ == ServiceError::from_spec(err).message_spec(),
            r.message@ == err.message_spec(),
    {
        let code = match &err {
            KeystoreError::StorageError(_) => ErrorKind::Store.code(),
            KeystoreError::NotFound(_) => ErrorKind::NotFound.code(),
        };
        RpcFailure { code, message: err.message() }
    }
}

impl vstd::std_specs::convert::FromSpecImpl<KeystoreError> for RpcFailure {
    open spec fn obeys_from_spec() -> bool {
        false
    }

    open spec fn from_spec(err: KeystoreError) -> RpcFailure {
        arbitrary()
    }
}

} // verus!
