//! The shim between the lifecycle interface and the host's native calling
//! convention: one entry point per hook, each converting the hook's outcome
//! into the native error-return protocol.
//!
//! The protocol is: a null error handle (`None`) on success; on failure, a
//! newly allocated error object of the internal category carrying the
//! failure's message text. The conversion lives in one place,
//! [`call_checked`], so every hook observes identical success/failure
//! semantics at the boundary. An error object received from a nested native
//! call — the model lookup that precedes execute — is returned as it came,
//! never wrapped a second time.

use crate::backend::Backend;
use crate::error::{native_error_of, Error, NativeError, ERROR_CODE_INTERNAL};
use crate::model::Model;
use crate::request::Request;
use vstd::prelude::*;

verus! {

/// The single translation point from a hook outcome to the native
/// error-return convention: success becomes a null error handle, failure
/// becomes a new internal-category error object carrying the failure's
/// message.
pub fn call_checked(outcome: Result<(), Error>) -> (r: Option<NativeError>)
    ensures
        outcome is Ok <==> r is None,
        outcome matches Err(e) ==> (r matches Some(ne) && ne.code == ERROR_CODE_INTERNAL
            && ne.message@ == e@),
{
    match outcome {
        Ok(_) => None,
        Err(failure) => Some(native_error_of(failure)),
    }
}

/// Entry point for the backend-initialize hook.
pub fn backend_initialize<B: Backend>() -> (r: Option<NativeError>)
    ensures
        r matches Some(ne) ==> ne.code == ERROR_CODE_INTERNAL,
{
    call_checked(B::initialize())
}

/// Entry point for the backend-finalize hook.
pub fn backend_finalize<B: Backend>() -> (r: Option<NativeError>)
    ensures
        r matches Some(ne) ==> ne.code == ERROR_CODE_INTERNAL,
{
    call_checked(B::finalize())
}

/// Entry point for the model-initialize hook.
pub fn model_initialize<B: Backend>(model: &mut Model<B::State>) -> (r: Option<NativeError>)
    ensures
        r matches Some(ne) ==> ne.code == ERROR_CODE_INTERNAL,
{
    call_checked(B::model_initialize(model))
}

/// Entry point for the model-finalize hook.
pub fn model_finalize<B: Backend>(model: &mut Model<B::State>) -> (r: Option<NativeError>)
    ensures
        r matches Some(ne) ==> ne.code == ERROR_CODE_INTERNAL,
{
    call_checked(B::model_finalize(model))
}

/// Entry point for the instance-initialize hook.
pub fn model_instance_initialize<B: Backend>() -> (r: Option<NativeError>)
    ensures
        r matches Some(ne) ==> ne.code == ERROR_CODE_INTERNAL,
{
    call_checked(B::model_instance_initialize())
}

/// Entry point for the instance-finalize hook.
pub fn model_instance_finalize<B: Backend>() -> (r: Option<NativeError>)
    ensures
        r matches Some(ne) ==> ne.code == ERROR_CODE_INTERNAL,
{
    call_checked(B::model_instance_finalize())
}

/// Entry point for the instance-execute hook.
///
/// The host resolves the owning model from the instance handle first; that
/// lookup's outcome comes in as `model_lookup`. A failed lookup is returned
/// to the host exactly as it came, without invoking plugin code and without
/// wrapping the error object a second time.
pub fn model_instance_execute<B: Backend>(
    model_lookup: Result<&Model<B::State>, NativeError>,
    requests: &[Request],
) -> (r: Option<NativeError>)
    ensures
        model_lookup matches Err(ne) ==> (r matches Some(out) && out == ne),
        model_lookup is Ok ==> (r matches Some(ne) ==> ne.code == ERROR_CODE_INTERNAL),
{
    match model_lookup {
        Err(native) => Some(native),
        Ok(model) => call_checked(B::model_instance_execute(model, requests)),
    }
}

} // verus!
