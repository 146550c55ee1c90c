//! The error bridge: the crate's internal failure value, the model of the
//! host's opaque error objects, and the two conversions between them.
//!
//! The native plugin interface reports failure through nullable error
//! handles: a null handle means success, a non-null handle carries a numeric
//! code and a message. [`NativeError`] models a non-null handle as a plain
//! value; `Option<NativeError>` models the nullable handle, with `None` for
//! null.

use crate::text::{spec_decimal, u64_to_string};
use vstd::prelude::*;
use vstd::string::StringExecFns;

verus! {

/// Numeric code of an unknown-category host error.
pub const ERROR_CODE_UNKNOWN: u32 = 0;

/// Numeric code of an internal-category host error. Every error object this
/// layer constructs is tagged with this code.
pub const ERROR_CODE_INTERNAL: u32 = 1;

/// Numeric code of a not-found host error.
pub const ERROR_CODE_NOT_FOUND: u32 = 2;

/// Numeric code of an invalid-argument host error.
pub const ERROR_CODE_INVALID_ARG: u32 = 3;

/// Numeric code of an unavailable host error.
pub const ERROR_CODE_UNAVAILABLE: u32 = 4;

/// Numeric code of an unsupported host error.
pub const ERROR_CODE_UNSUPPORTED: u32 = 5;

/// Numeric code of an already-exists host error.
pub const ERROR_CODE_ALREADY_EXISTS: u32 = 6;

/// An internal failure: what a lifecycle hook or a handle accessor returns
/// when it cannot do its work. Carries a human-readable message.
#[derive(Debug)]
pub struct Error {
    message: String,
}

impl View for Error {
    type V = Seq<char>;

    closed spec fn view(&self) -> Seq<char> {
        self.message@
    }
}

impl Error {
    /// A failure with the given message.
    pub fn new(message: &str) -> (r: Error)
        ensures
            r@ == message@,
    {
        Error { message: String::from_str(message) }
    }

    /// A failure that takes ownership of an already-built message.
    pub fn from_string(message: String) -> (r: Error)
        ensures
            r@ == message@,
    {
        Error { message }
    }

    /// The failure's message text.
    pub fn message(&self) -> (r: &str)
        ensures
            r@ == self@,
    {
        self.message.as_str()
    }
}

impl Clone for Error {
    fn clone(&self) -> (r: Self)
        ensures
            r@ == self@,
    {
        Error { message: self.message.clone() }
    }
}

/// A non-null host error object, modeled as a plain value: a numeric
/// category code and a message.
pub struct NativeError {
    /// The numeric error category, one of the `ERROR_CODE_*` constants.
    pub code: u32,
    /// The error's message text.
    pub message: String,
}

impl NativeError {
    /// A host error object with the given code and message.
    pub fn new(code: u32, message: String) -> (r: NativeError)
        ensures
            r.code == code,
            r.message@ == message@,
    {
        NativeError { code, message }
    }
}

/// The message `check_err` gives an internal failure built from a host error
/// with code `code`.
pub open spec fn native_failure_message(code: u32) -> Seq<char> {
    "native call returned error code "@ + spec_decimal(code as nat)
}

/// Inbound half of the error bridge: turns the nullable error handle a
/// native call returned into this layer's `Result`, so that callers can
/// return early on failure. The failure's message carries the host's
/// numeric code.
pub fn check_err(err: Option<NativeError>) -> (r: Result<(), Error>)
    ensures
        r is Ok <==> err is None,
        err matches Some(ne) ==> r matches Err(e) && e@ == native_failure_message(ne.code),
{
    match err {
        None => Ok(()),
        Some(ne) => {
            let mut message = String::from_str("native call returned error code ");
            let digits = u64_to_string(ne.code as u64);
            message.append(digits.as_str());
            Err(Error::from_string(message))
        },
    }
}

/// Outbound half of the error bridge: wraps an internal failure as a new
/// host error object of the internal category, carrying the failure's
/// message text unchanged.
pub fn native_error_of(failure: Error) -> (r: NativeError)
    ensures
        r.code == ERROR_CODE_INTERNAL,
        r.message@ == failure@,
{
    let message = String::from_str(failure.message());
    NativeError { code: ERROR_CODE_INTERNAL, message }
}

} // verus!
