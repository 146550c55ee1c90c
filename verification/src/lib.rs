//! A safe, verified adapter layer for implementing a model-serving backend
//! plugin against a native inference-server plugin interface.
//!
//! The native side of that interface trades in opaque handles and raw error
//! pointers; this crate models those handles as explicit values (models,
//! requests, inputs, responses, outputs and error objects), verifies the
//! adapter logic that runs over them, and keeps the byte-level wire contract
//! for variable-length string tensors as a proved codec.

pub mod backend;
pub mod codec;
pub mod datatype;
pub mod error;
pub mod log;
pub mod model;
pub mod request;
pub mod response;
pub mod shim;
pub mod text;

pub use backend::Backend;
pub use codec::{decode_string, encode_string};
pub use datatype::DataType;
pub use error::{check_err, Error};
pub use log::TritonLogger;
pub use model::{Model, ModelConfig};
pub use request::{Input, InputProperties, MemoryKind, Request};
pub use response::{Output, Response};
