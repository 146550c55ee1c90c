//! The lifecycle interface a plugin author implements: six optional hooks
//! that default to a no-op success, and one mandatory batched-execute hook.
//!
//! The host drives every call. It never issues two concurrent executes for
//! the same instance, but executes for different instances — of the same or
//! of different models — may run in parallel; the execute hook therefore
//! borrows the model immutably, so model-level attached state is read-shared
//! across instances, and this layer adds no locking and no reordering of its
//! own.

use crate::error::Error;
use crate::model::Model;
use crate::request::Request;
use vstd::prelude::*;

verus! {

/// The capability set of a backend plugin.
///
/// Each hook returns a success/failure outcome; a failure carries a
/// human-readable message and is surfaced to the host as a native error
/// object by the shim, never as a process abort.
pub trait Backend {
    /// The type of the state this backend attaches to a model.
    type State;

    /// Called once, when the plugin library loads, to set up any
    /// backend-wide state.
    fn initialize() -> Result<(), Error> {
        Ok(())
    }

    /// Called once, just before the plugin library is unloaded; all
    /// backend-owned threads must have been joined by this point.
    fn finalize() -> Result<(), Error> {
        Ok(())
    }

    /// Called once per loaded model version, to set up model state.
    #[allow(unused_variables)]
    fn model_initialize(model: &mut Model<Self::State>) -> Result<(), Error> {
        Ok(())
    }

    /// Called once per model version before it is unloaded, to free model
    /// state.
    #[allow(unused_variables)]
    fn model_finalize(model: &mut Model<Self::State>) -> Result<(), Error> {
        Ok(())
    }

    /// Called once per model instance created.
    fn model_instance_initialize() -> Result<(), Error> {
        Ok(())
    }

    /// Called once per model instance, just before its model is unloaded.
    fn model_instance_finalize() -> Result<(), Error> {
        Ok(())
    }

    /// Executes a batch of one or more requests on a model instance. This
    /// hook is mandatory. The host serializes executes within one instance
    /// but may call it concurrently for different instances.
    fn model_instance_execute(model: &Model<Self::State>, requests: &[Request]) -> Result<
        (),
        Error,
    >;
}

} // verus!
