//! Request-side handle wrappers: one inference request of a batch, and the
//! named input tensors inside it.
//!
//! The native interface hands a tensor's bytes out as one or more
//! discontiguous regions, each tagged with the kind of memory it lives in.
//! Only host-CPU and pinned-host-CPU regions are supported here; any other
//! kind is a hard error, never a silent misread. `Input::buffer` hides the
//! fragmentation: one region is borrowed in place, several are copied into
//! one owned buffer in index order.

use crate::codec::{lossy_decode, wire_split};
use crate::error::Error;
use crate::text::str_eq;
use vstd::bytes::{spec_u64_from_le_bytes, u64_from_le_bytes};
use vstd::prelude::*;
use vstd::string::StringExecFns;
use vstd::utf8::{decode_utf8, valid_utf8};

verus! {

/// Native code of plain host-CPU memory.
pub const MEMORY_KIND_CPU: u32 = 0;

/// Native code of pinned host-CPU memory.
pub const MEMORY_KIND_CPU_PINNED: u32 = 1;

/// Native code of device (GPU) memory.
pub const MEMORY_KIND_GPU: u32 = 2;

/// Where a buffer region resides, per the native interface's memory-type
/// enumeration.
#[derive(Debug, Clone, Copy, PartialEq, Eq, Structural)]
pub enum MemoryKind {
    /// Plain host CPU memory.
    Cpu,
    /// Pinned host CPU memory.
    CpuPinned,
    /// Device (GPU) memory; not supported by this layer.
    Gpu,
}

impl MemoryKind {
    /// Whether this layer may read a region of this kind.
    pub open spec fn spec_supported(self) -> bool {
        self == MemoryKind::Cpu || self == MemoryKind::CpuPinned
    }

    /// Whether this layer may read a region of this kind.
    pub fn supported(self) -> (r: bool)
        ensures
            r == self.spec_supported(),
    {
        match self {
            MemoryKind::Cpu => true,
            MemoryKind::CpuPinned => true,
            MemoryKind::Gpu => false,
        }
    }
}

/// One contiguous region of an input tensor's bytes, tagged with the kind
/// of memory it models.
pub struct InputRegion {
    /// The kind of memory the region resides in.
    pub kind: MemoryKind,
    /// The region's bytes.
    pub bytes: Vec<u8>,
}

/// The concatenation of a sequence of byte regions, in index order.
pub open spec fn concat_bytes(regions: Seq<Seq<u8>>) -> Seq<u8>
    decreases regions.len(),
{
    if regions.len() == 0 {
        Seq::empty()
    } else {
        regions[0] + concat_bytes(regions.drop_first())
    }
}

/// Appending one region to a sequence appends its bytes to the
/// concatenation.
pub proof fn lemma_concat_bytes_snoc(regions: Seq<Seq<u8>>)
    requires
        regions.len() > 0,
    ensures
        concat_bytes(regions) == concat_bytes(regions.drop_last()) + regions.last(),
    decreases regions.len(),
{
    if regions.len() == 1 {
        assert(regions.drop_first() =~= Seq::<Seq<u8>>::empty());
        assert(regions.drop_last() =~= Seq::<Seq<u8>>::empty());
        assert(concat_bytes(regions.drop_last()) + regions.last() =~= regions[0] + concat_bytes(
            regions.drop_first(),
        ));
    } else {
        lemma_concat_bytes_snoc(regions.drop_first());
        assert(regions.drop_first().drop_last() =~= regions.drop_last().drop_first());
        assert(regions.drop_first().last() == regions.last());
        assert(regions.drop_last()[0] == regions[0]);
        assert(concat_bytes(regions) == regions[0] + (concat_bytes(
            regions.drop_last().drop_first(),
        ) + regions.last()));
        assert(concat_bytes(regions) =~= (regions.drop_last()[0] + concat_bytes(
            regions.drop_last().drop_first(),
        )) + regions.last());
    }
}

/// A tensor's bytes as one contiguous value: either a zero-copy view over a
/// single native region, or an owned buffer the regions were copied into.
pub enum Buffer<'a> {
    /// A borrowed view aliasing the single region.
    Borrowed(&'a [u8]),
    /// An owned buffer holding the copied regions.
    Owned(Vec<u8>),
}

impl<'a> View for Buffer<'a> {
    type V = Seq<u8>;

    open spec fn view(&self) -> Seq<u8> {
        match self {
            Buffer::Borrowed(b) => b@,
            Buffer::Owned(v) => v@,
        }
    }
}

impl<'a> Buffer<'a> {
    /// The buffer's bytes.
    pub fn as_bytes(&self) -> (r: &[u8])
        ensures
            r@ == self@,
    {
        match self {
            Buffer::Borrowed(b) => b,
            Buffer::Owned(v) => v.as_slice(),
        }
    }
}

/// A named input tensor inside a request, as the host describes it: a
/// name, a native data-type code, a declared dimension count, and the bytes
/// in one or more tagged regions.
pub struct Input {
    name: String,
    datatype: u32,
    dims_count: u32,
    byte_size: u64,
    regions: Vec<InputRegion>,
}

/// The descriptive properties of an input tensor, as one plain value.
#[derive(Debug)]
pub struct InputProperties {
    /// The tensor's name.
    pub name: String,
    /// The native code of the tensor's element data type.
    pub datatype: u32,
    /// The number of dimensions the tensor declares.
    pub dims_count: u32,
    /// The total byte size over all regions.
    pub byte_size: u64,
    /// The number of discontiguous regions holding the bytes.
    pub buffer_count: u32,
}

impl Input {
    /// The input's name.
    pub closed spec fn spec_name(self) -> Seq<char> {
        self.name@
    }

    /// The input's native data-type code.
    pub closed spec fn spec_datatype(self) -> u32 {
        self.datatype
    }

    /// The input's declared dimension count.
    pub closed spec fn spec_dims_count(self) -> u32 {
        self.dims_count
    }

    /// The memory kinds of the input's regions, in index order.
    pub closed spec fn region_kinds(self) -> Seq<MemoryKind> {
        self.regions@.map_values(|r: InputRegion| r.kind)
    }

    /// The bytes of the input's regions, in index order.
    pub closed spec fn region_bytes(self) -> Seq<Seq<u8>> {
        self.regions@.map_values(|r: InputRegion| r.bytes@)
    }

    /// Whether every region resides in a supported memory kind.
    pub open spec fn all_supported(self) -> bool {
        forall|i: int|
            0 <= i < self.region_kinds().len() ==> self.region_kinds()[i].spec_supported()
    }

    /// The input's well-formedness: the stored total byte size is the sum
    /// of the region sizes, and the region count fits the native interface's
    /// 32-bit buffer count.
    pub closed spec fn wf(self) -> bool {
        &&& self.byte_size as nat == concat_bytes(self.region_bytes()).len()
        &&& self.regions@.len() <= u32::MAX
    }

    /// Builds an input from the values the host describes it with.
    ///
    /// Fails when the regions' total byte size cannot be represented, or
    /// when there are more regions than the native buffer count can say.
    pub fn new(name: String, datatype: u32, dims_count: u32, regions: Vec<InputRegion>) -> (r:
        Result<Input, Error>)
        ensures
            r matches Ok(inp) ==> {
                &&& inp.wf()
                &&& inp.spec_name() == name@
                &&& inp.spec_datatype() == datatype
                &&& inp.spec_dims_count() == dims_count
                &&& inp.region_kinds() == regions@.map_values(|g: InputRegion| g.kind)
                &&& inp.region_bytes() == regions@.map_values(|g: InputRegion| g.bytes@)
            },
            r is Ok <==> (concat_bytes(regions@.map_values(|g: InputRegion| g.bytes@)).len()
                <= u64::MAX && regions@.len() <= u32::MAX),
    {
        let ghost all_bytes = regions@.map_values(|g: InputRegion| g.bytes@);
        if regions.len() > u32::MAX as usize {
            return Err(Error::new("too many input buffer regions"));
        }
        let mut total: u64 = 0;
        let mut k: usize = 0;
        while k < regions.len()
            invariant
                k <= regions@.len(),
                all_bytes == regions@.map_values(|g: InputRegion| g.bytes@),
                total as nat == concat_bytes(all_bytes.subrange(0, k as int)).len(),
            decreases regions@.len() - k,
        {
            let len = regions[k].bytes.len();
            proof {
                lemma_concat_bytes_snoc(all_bytes.subrange(0, k as int + 1));
                assert(all_bytes.subrange(0, k as int + 1).drop_last() =~= all_bytes.subrange(
                    0,
                    k as int,
                ));
                assert(all_bytes.subrange(0, k as int + 1).last() == regions@[k as int].bytes@);
            }
            if len as u64 > u64::MAX - total {
                proof {
                    lemma_concat_bytes_prefix_len(all_bytes, k as int + 1);
                }
                return Err(Error::new("input byte size overflows"));
            }
            total = total + len as u64;
            k = k + 1;
        }
        proof {
            assert(all_bytes.subrange(0, all_bytes.len() as int) =~= all_bytes);
        }
        Ok(Input { name, datatype, dims_count, byte_size: total, regions })
    }

    /// The input's descriptive properties.
    pub fn properties(&self) -> (r: InputProperties)
        requires
            self.wf(),
        ensures
            r.name@ == self.spec_name(),
            r.datatype == self.spec_datatype(),
            r.dims_count == self.spec_dims_count(),
            r.byte_size as nat == concat_bytes(self.region_bytes()).len(),
            r.buffer_count as nat == self.region_bytes().len(),
    {
        InputProperties {
            name: self.name.clone(),
            datatype: self.datatype,
            dims_count: self.dims_count,
            byte_size: self.byte_size,
            buffer_count: self.regions.len() as u32,
        }
    }

    /// One region's bytes, after checking that its memory kind is one this
    /// layer may read.
    fn raw_buffer(&self, buffer_index: usize) -> (r: Result<&[u8], Error>)
        requires
            buffer_index < self.region_bytes().len(),
        ensures
            r is Ok <==> self.region_kinds()[buffer_index as int].spec_supported(),
            r matches Ok(b) ==> b@ == self.region_bytes()[buffer_index as int],
            r matches Err(e) ==> e@ == "GPU memory is unsupported"@,
    {
        let region = &self.regions[buffer_index];
        if region.kind.supported() {
            Ok(region.bytes.as_slice())
        } else {
            Err(Error::new("GPU memory is unsupported"))
        }
    }

    /// The tensor's bytes as one contiguous value: the concatenation of its
    /// regions in index order. A single region is returned as a borrowed
    /// view aliasing that region, without copying; several regions are
    /// copied into one owned buffer. Any region of an unsupported memory
    /// kind fails the whole operation, and no partial copy is exposed.
    pub fn buffer(&self) -> (r: Result<Buffer<'_>, Error>)
        requires
            self.wf(),
        ensures
            r is Ok <==> self.all_supported(),
            r matches Ok(b) ==> b@ == concat_bytes(self.region_bytes()),
            self.region_bytes().len() == 1 && self.all_supported() ==> (r matches Ok(b)
                && b is Borrowed),
            r matches Err(e) ==> e@ == "GPU memory is unsupported"@,
    {
        if self.regions.len() == 1 {
            let bytes = match self.raw_buffer(0) {
                Ok(b) => b,
                Err(e) => {
                    return Err(e);
                },
            };
            proof {
                let rb = self.region_bytes();
                assert(rb.drop_first() =~= Seq::<Seq<u8>>::empty());
                assert(concat_bytes(rb.drop_first()) =~= Seq::<u8>::empty());
                assert(concat_bytes(rb) =~= rb[0]);
            }
            Ok(Buffer::Borrowed(bytes))
        } else {
            let mut out: Vec<u8> = Vec::new();
            let mut k: usize = 0;
            while k < self.regions.len()
                invariant
                    self.wf(),
                    k <= self.region_bytes().len(),
                    forall|i: int| 0 <= i < k ==> self.region_kinds()[i].spec_supported(),
                    out@ == concat_bytes(self.region_bytes().subrange(0, k as int)),
                decreases self.region_bytes().len() - k,
            {
                let bytes = match self.raw_buffer(k) {
                    Ok(b) => b,
                    Err(e) => {
                        return Err(e);
                    },
                };
                let mut j: usize = 0;
                while j < bytes.len()
                    invariant
                        bytes@ == self.region_bytes()[k as int],
                        j <= bytes@.len(),
                        out@ == concat_bytes(self.region_bytes().subrange(0, k as int))
                            + bytes@.subrange(0, j as int),
                    decreases bytes@.len() - j,
                {
                    out.push(bytes[j]);
                    j = j + 1;
                    proof {
                        assert(out@ =~= concat_bytes(
                            self.region_bytes().subrange(0, k as int),
                        ) + bytes@.subrange(0, j as int));
                    }
                }
                k = k + 1;
                proof {
                    lemma_concat_bytes_snoc(self.region_bytes().subrange(0, k as int));
                    assert(self.region_bytes().subrange(0, k as int).drop_last()
                        =~= self.region_bytes().subrange(0, k as int - 1));
                    assert(bytes@.subrange(0, bytes@.len() as int) =~= bytes@);
                    assert(out@ =~= concat_bytes(self.region_bytes().subrange(0, k as int)));
                }
            }
            proof {
                assert(self.region_bytes().subrange(0, self.region_bytes().len() as int)
                    =~= self.region_bytes());
            }
            Ok(Buffer::Owned(out))
        }
    }

    /// The first string of the byte-tensor payload this input carries.
    ///
    /// Fails when a region is of an unsupported kind, when the payload is
    /// truncated, or when it carries no string at all.
    pub fn as_string(&self) -> (r: Result<String, Error>)
        requires
            self.wf(),
        ensures
            ({
                let bytes = concat_bytes(self.region_bytes());
                &&& r is Ok <==> (self.all_supported() && wire_split(bytes) is Some && wire_split(
                    bytes,
                )->Some_0.len() > 0)
                &&& r matches Ok(s) ==> s@ == lossy_decode(wire_split(bytes)->Some_0[0])
                &&& r matches Ok(s) ==> (valid_utf8(wire_split(bytes)->Some_0[0]) ==> s@
                    == decode_utf8(wire_split(bytes)->Some_0[0]))
                &&& !self.all_supported() ==> (r matches Err(e) && e@
                    == "GPU memory is unsupported"@)
                &&& self.all_supported() && wire_split(bytes) is None ==> (r matches Err(e) && e@
                    == "byte tensor payload is truncated"@)
                &&& self.all_supported() && (wire_split(bytes) matches Some(chunks)
                    && chunks.len() == 0) ==> (r matches Err(e) && e@
                    == "input holds no string"@)
            }),
    {
        let buffer = match self.buffer() {
            Ok(b) => b,
            Err(e) => {
                return Err(e);
            },
        };
        let mut strings = match crate::codec::decode_string(buffer.as_bytes()) {
            Ok(v) => v,
            Err(e) => {
                return Err(e);
            },
        };
        if strings.len() == 0 {
            return Err(Error::new("input holds no string"));
        }
        let first = strings.swap_remove(0);
        Ok(first)
    }

    /// The little-endian unsigned 64-bit integer this input carries.
    ///
    /// Fails when a region is of an unsupported kind or when the tensor is
    /// not exactly eight bytes.
    pub fn as_u64(&self) -> (r: Result<u64, Error>)
        requires
            self.wf(),
        ensures
            ({
                let bytes = concat_bytes(self.region_bytes());
                &&& r is Ok <==> (self.all_supported() && bytes.len() == 8)
                &&& r matches Ok(v) ==> v == spec_u64_from_le_bytes(bytes)
                &&& !self.all_supported() ==> (r matches Err(e) && e@
                    == "GPU memory is unsupported"@)
                &&& self.all_supported() && bytes.len() != 8 ==> (r matches Err(e) && e@
                    == "input is not eight bytes"@)
            }),
    {
        let buffer = match self.buffer() {
            Ok(b) => b,
            Err(e) => {
                return Err(e);
            },
        };
        let bytes = buffer.as_bytes();
        if bytes.len() != 8 {
            return Err(Error::new("input is not eight bytes"));
        }
        Ok(u64_from_le_bytes(bytes))
    }
}

/// A prefix of the regions concatenates to no more than the whole.
proof fn lemma_concat_bytes_prefix_len(regions: Seq<Seq<u8>>, k: int)
    requires
        0 <= k <= regions.len(),
    ensures
        concat_bytes(regions.subrange(0, k)).len() <= concat_bytes(regions).len(),
    decreases regions.len() - k,
{
    if k < regions.len() {
        lemma_concat_bytes_prefix_len(regions, k + 1);
        lemma_concat_bytes_snoc(regions.subrange(0, k + 1));
        assert(regions.subrange(0, k + 1).drop_last() =~= regions.subrange(0, k));
    } else {
        assert(regions.subrange(0, k) =~= regions);
    }
}

/// One inference request of a batch. The host owns the request for the
/// duration of one execute call; the plugin reads its named inputs.
pub struct Request {
    inputs: Vec<Input>,
}

impl Request {
    /// The request's input tensors, in the host's order.
    pub closed spec fn spec_inputs(self) -> Seq<Input> {
        self.inputs@
    }

    /// A request's well-formedness: each of its inputs is well-formed.
    pub open spec fn wf(self) -> bool {
        forall|i: int| 0 <= i < self.spec_inputs().len() ==> self.spec_inputs()[i].wf()
    }

    /// Builds a request over the given inputs.
    pub fn new(inputs: Vec<Input>) -> (r: Request)
        ensures
            r.spec_inputs() == inputs@,
    {
        Request { inputs }
    }

    /// The input with the given name; the first one, when the host lists
    /// several of that name. An absent name is an error.
    pub fn get_input(&self, name: &str) -> (r: Result<&Input, Error>)
        ensures
            r is Ok <==> exists|i: int|
                0 <= i < self.spec_inputs().len() && self.spec_inputs()[i].spec_name() == name@,
            r matches Ok(inp) ==> exists|i: int|
                {
                    &&& 0 <= i < self.spec_inputs().len()
                    &&& *inp == self.spec_inputs()[i]
                    &&& self.spec_inputs()[i].spec_name() == name@
                    &&& forall|j: int| 0 <= j < i ==> self.spec_inputs()[j].spec_name() != name@
                },
            r matches Err(e) ==> e@ == "no input named "@ + name@,
    {
        let mut k: usize = 0;
        while k < self.inputs.len()
            invariant
                k <= self.spec_inputs().len(),
                forall|j: int| 0 <= j < k ==> self.spec_inputs()[j].spec_name() != name@,
            decreases self.spec_inputs().len() - k,
        {
            if str_eq(self.inputs[k].name.as_str(), name) {
                return Ok(&self.inputs[k]);
            }
            k = k + 1;
        }
        let mut message = String::from_str("no input named ");
        message.append(name);
        Err(Error::from_string(message))
    }
}

} // verus!
