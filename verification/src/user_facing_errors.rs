//! Errors as the engine reports them to its users: known errors carry a
//! code and a message written from a template; anything else is an unknown
//! error with its message.

use vstd::prelude::*;

verus! {

#[verifier::external_type_specification]
#[verifier::external_body]
pub struct ExJsonValue(serde_json::Value);

/// An error that users are told about, with a stable error code. Its
/// `message` is usually written from a message template whose variables
/// are fields of the error.
pub trait UserFacingError {
    /// The stable code of this kind of error.
    const ERROR_CODE: &'static str;

    /// The message of the error.
    fn message(&self) -> String;
}

/// A known error: its message, its fields as JSON (`meta`), and its code.
pub struct KnownError {
    pub message: String,
    pub meta: serde_json::Value,
    pub error_code: &'static str,
}

impl KnownError {
    /// The known error of `inner`, whose fields serialize to `meta`.
    pub fn new<T: UserFacingError>(inner: T, meta: serde_json::Value) -> (res: KnownError)
        ensures
            call_ensures(T::message, (&inner,), res.message),
            res.meta == meta,
            res.error_code == T::ERROR_CODE,
    {
        KnownError { message: inner.message(), meta, error_code: T::ERROR_CODE }
    }
}

/// An error without a code: its message and, if one was captured, a backtrace.
#[derive(Debug)]
pub struct UnknownError {
    pub message: String,
    pub backtrace: Option<String>,
}

/// An error as users see it.
pub enum Error {
    Known(KnownError),
    Unknown(UnknownError),
}

/// The user-facing form of an engine error with the given message: an
/// unknown error with that message and no backtrace.
pub fn render_error(crate_error_message: String) -> (res: Error)
    ensures
        res == Error::Unknown(UnknownError { message: crate_error_message, backtrace: None }),
{
    Error::Unknown(UnknownError { message: crate_error_message, backtrace: None })
}

} // verus!
