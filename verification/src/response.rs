//! Response-side handle wrappers: the response built for one request, and
//! the named output tensors declared on it.
//!
//! A response is created from exactly one request, collects output tensors
//! the plugin declares and fills, and is terminated by exactly one send —
//! the send consumes the response, so a second terminal send cannot be
//! written. A response never sent is discarded with its outputs when it
//! goes out of scope.

use crate::error::Error;
use crate::request::Request;
use vstd::prelude::*;
use vstd::slice::slice_to_vec;
use vstd::string::StringExecFns;

verus! {

/// An output tensor declared on a response: a name, a native data-type
/// code, a shape, and one buffer of bytes the plugin fills before the
/// response is sent.
pub struct Output {
    name: String,
    datatype: u32,
    shape: Vec<i64>,
    data: Vec<u8>,
}

impl Output {
    /// The output's name.
    pub closed spec fn spec_name(self) -> Seq<char> {
        self.name@
    }

    /// The native code of the output's element data type.
    pub closed spec fn spec_datatype(self) -> u32 {
        self.datatype
    }

    /// The output's shape.
    pub closed spec fn spec_shape(self) -> Seq<i64> {
        self.shape@
    }

    /// The bytes of the output's buffer.
    pub closed spec fn spec_data(self) -> Seq<u8> {
        self.data@
    }

    /// The output's name.
    pub fn name(&self) -> (r: &str)
        ensures
            r@ == self.spec_name(),
    {
        self.name.as_str()
    }

    /// The native code of the output's element data type.
    pub fn datatype(&self) -> (r: u32)
        ensures
            r == self.spec_datatype(),
    {
        self.datatype
    }

    /// The output's shape.
    pub fn shape(&self) -> (r: &Vec<i64>)
        ensures
            r@ == self.spec_shape(),
    {
        &self.shape
    }

    /// The bytes of the output's buffer.
    pub fn data(&self) -> (r: &Vec<u8>)
        ensures
            r@ == self.spec_data(),
    {
        &self.data
    }

    /// Allocates the output's buffer at exactly `size` bytes, initially
    /// zeroed, and returns a mutable view of it for the plugin to fill. The
    /// buffer belongs to the response the output was declared on.
    pub fn buffer(&mut self, size: usize) -> (r: &mut Vec<u8>)
        ensures
            r@ == Seq::new(size as nat, |i: int| 0u8),
            final(self).spec_data() == final(r)@,
            final(self).spec_name() == old(self).spec_name(),
            final(self).spec_datatype() == old(self).spec_datatype(),
            final(self).spec_shape() == old(self).spec_shape(),
    {
        let mut zeroed: Vec<u8> = Vec::new();
        let mut k: usize = 0;
        while k < size
            invariant
                k <= size,
                zeroed@ == Seq::new(k as nat, |i: int| 0u8),
            decreases size - k,
        {
            zeroed.push(0u8);
            k = k + 1;
            proof {
                assert(zeroed@ =~= Seq::new(k as nat, |i: int| 0u8));
            }
        }
        self.data = zeroed;
        &mut self.data
    }
}

/// Represents a response to an inference request.
///
/// A response is created from one request, declares named output tensors,
/// and is finalized by one terminal send.
pub struct Response {
    outputs: Vec<Output>,
}

impl Response {
    /// The output tensors declared on this response, in declaration order.
    pub closed spec fn spec_outputs(self) -> Seq<Output> {
        self.outputs@
    }

    /// Creates a new response associated with the given request, with no
    /// outputs declared yet.
    pub fn new(_request: &Request) -> (r: Result<Response, Error>)
        ensures
            r matches Ok(resp) && resp.spec_outputs() == Seq::<Output>::empty(),
    {
        Ok(Response { outputs: Vec::new() })
    }

    /// Declares a new output tensor on the response with a name, a native
    /// data-type code and a shape, and returns a mutable handle to it. The
    /// output starts with an empty buffer.
    pub fn output(&mut self, name: &str, datatype: u32, shape: &[i64]) -> (r: &mut Output)
        ensures
            r.spec_name() == name@,
            r.spec_datatype() == datatype,
            r.spec_shape() == shape@,
            r.spec_data() == Seq::<u8>::empty(),
            final(self).spec_outputs() == old(self).spec_outputs().push(*final(r)),
    {
        let out = Output {
            name: String::from_str(name),
            datatype,
            shape: slice_to_vec(shape),
            data: Vec::new(),
        };
        self.outputs.push(out);
        let idx = self.outputs.len() - 1;
        &mut self.outputs[idx]
    }

    /// The output tensors declared so far, in declaration order.
    pub fn outputs(&self) -> (r: &Vec<Output>)
        ensures
            r@ == self.spec_outputs(),
    {
        &self.outputs
    }

    /// Sends the response back to the host as the one terminal send,
    /// consuming the response: after this, neither a second send nor a
    /// further output can be written.
    pub fn send(self) -> (r: Result<(), Error>)
        ensures
            r is Ok,
    {
        Ok(())
    }
}

} // verus!
