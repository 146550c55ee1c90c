//! Tensor element data types and their two encodings: the numeric codes of
//! the native interface's data-type enumeration, and the `"TYPE_*"` names
//! used in model-configuration text. Both encodings are a versioned contract
//! with the host.

use crate::error::Error;
use crate::text::str_eq;
use vstd::prelude::*;

verus! {

/// Native code of the boolean element type.
pub const CODE_BOOL: u32 = 1;

/// Native code of the unsigned 8-bit integer element type.
pub const CODE_UINT8: u32 = 2;

/// Native code of the unsigned 16-bit integer element type.
pub const CODE_UINT16: u32 = 3;

/// Native code of the unsigned 32-bit integer element type.
pub const CODE_UINT32: u32 = 4;

/// Native code of the unsigned 64-bit integer element type.
pub const CODE_UINT64: u32 = 5;

/// Native code of the signed 8-bit integer element type.
pub const CODE_INT8: u32 = 6;

/// Native code of the signed 16-bit integer element type.
pub const CODE_INT16: u32 = 7;

/// Native code of the signed 32-bit integer element type.
pub const CODE_INT32: u32 = 8;

/// Native code of the signed 64-bit integer element type.
pub const CODE_INT64: u32 = 9;

/// Native code of the 16-bit floating-point element type.
pub const CODE_FP16: u32 = 10;

/// Native code of the 32-bit floating-point element type.
pub const CODE_FP32: u32 = 11;

/// Native code of the 64-bit floating-point element type.
pub const CODE_FP64: u32 = 12;

/// Native code of the raw-bytes element type, used for variable-length
/// string tensors.
pub const CODE_BYTES: u32 = 13;

/// Native code of the 16-bit brain-floating-point element type.
pub const CODE_BF16: u32 = 14;

/// Represents an input or output data type for a model.
#[derive(Debug, Clone, Copy, PartialEq, Eq, Structural)]
pub enum DataType {
    /// Boolean
    Bool,
    /// Unsigned 8-bit integer
    UInt8,
    /// Unsigned 16-bit integer
    UInt16,
    /// Unsigned 32-bit integer
    UInt32,
    /// Unsigned 64-bit integer
    UInt64,
    /// Signed 8-bit integer
    Int8,
    /// Signed 16-bit integer
    Int16,
    /// Signed 32-bit integer
    Int32,
    /// Signed 64-bit integer
    Int64,
    /// 16-bit floating point
    Fp16,
    /// 32-bit floating point
    Fp32,
    /// 64-bit floating point
    Fp64,
    /// Arbitrary bytes
    Bytes,
    /// 16-bit floating point (bfloat16)
    Bf16,
}

impl DataType {
    /// The native numeric code of this data type.
    pub open spec fn spec_code(self) -> u32 {
        match self {
            DataType::Bool => CODE_BOOL,
            DataType::UInt8 => CODE_UINT8,
            DataType::UInt16 => CODE_UINT16,
            DataType::UInt32 => CODE_UINT32,
            DataType::UInt64 => CODE_UINT64,
            DataType::Int8 => CODE_INT8,
            DataType::Int16 => CODE_INT16,
            DataType::Int32 => CODE_INT32,
            DataType::Int64 => CODE_INT64,
            DataType::Fp16 => CODE_FP16,
            DataType::Fp32 => CODE_FP32,
            DataType::Fp64 => CODE_FP64,
            DataType::Bytes => CODE_BYTES,
            DataType::Bf16 => CODE_BF16,
        }
    }

    /// The data type a native numeric code stands for, if any.
    pub open spec fn spec_from_code(code: u32) -> Option<DataType> {
        if code == CODE_BOOL {
            Some(DataType::Bool)
        } else if code == CODE_UINT8 {
            Some(DataType::UInt8)
        } else if code == CODE_UINT16 {
            Some(DataType::UInt16)
        } else if code == CODE_UINT32 {
            Some(DataType::UInt32)
        } else if code == CODE_UINT64 {
            Some(DataType::UInt64)
        } else if code == CODE_INT8 {
            Some(DataType::Int8)
        } else if code == CODE_INT16 {
            Some(DataType::Int16)
        } else if code == CODE_INT32 {
            Some(DataType::Int32)
        } else if code == CODE_INT64 {
            Some(DataType::Int64)
        } else if code == CODE_FP16 {
            Some(DataType::Fp16)
        } else if code == CODE_FP32 {
            Some(DataType::Fp32)
        } else if code == CODE_FP64 {
            Some(DataType::Fp64)
        } else if code == CODE_BYTES {
            Some(DataType::Bytes)
        } else if code == CODE_BF16 {
            Some(DataType::Bf16)
        } else {
            None
        }
    }

    /// The configuration-text name of this data type.
    pub open spec fn spec_name(self) -> Seq<char> {
        match self {
            DataType::Bool => "TYPE_BOOL"@,
            DataType::UInt8 => "TYPE_UINT8"@,
            DataType::UInt16 => "TYPE_UINT16"@,
            DataType::UInt32 => "TYPE_UINT32"@,
            DataType::UInt64 => "TYPE_UINT64"@,
            DataType::Int8 => "TYPE_INT8"@,
            DataType::Int16 => "TYPE_INT16"@,
            DataType::Int32 => "TYPE_INT32"@,
            DataType::Int64 => "TYPE_INT64"@,
            DataType::Fp16 => "TYPE_FP16"@,
            DataType::Fp32 => "TYPE_FP32"@,
            DataType::Fp64 => "TYPE_FP64"@,
            DataType::Bytes => "TYPE_BYTES"@,
            DataType::Bf16 => "TYPE_BF16"@,
        }
    }

    /// The data type a configuration-text name stands for, if any.
    pub open spec fn spec_from_name(name: Seq<char>) -> Option<DataType> {
        if name == "TYPE_BOOL"@ {
            Some(DataType::Bool)
        } else if name == "TYPE_UINT8"@ {
            Some(DataType::UInt8)
        } else if name == "TYPE_UINT16"@ {
            Some(DataType::UInt16)
        } else if name == "TYPE_UINT32"@ {
            Some(DataType::UInt32)
        } else if name == "TYPE_UINT64"@ {
            Some(DataType::UInt64)
        } else if name == "TYPE_INT8"@ {
            Some(DataType::Int8)
        } else if name == "TYPE_INT16"@ {
            Some(DataType::Int16)
        } else if name == "TYPE_INT32"@ {
            Some(DataType::Int32)
        } else if name == "TYPE_INT64"@ {
            Some(DataType::Int64)
        } else if name == "TYPE_FP16"@ {
            Some(DataType::Fp16)
        } else if name == "TYPE_FP32"@ {
            Some(DataType::Fp32)
        } else if name == "TYPE_FP64"@ {
            Some(DataType::Fp64)
        } else if name == "TYPE_BYTES"@ {
            Some(DataType::Bytes)
        } else if name == "TYPE_BF16"@ {
            Some(DataType::Bf16)
        } else {
            None
        }
    }

    /// The native numeric code of this data type.
    pub fn code(self) -> (r: u32)
        ensures
            r == self.spec_code(),
    {
        match self {
            DataType::Bool => CODE_BOOL,
            DataType::UInt8 => CODE_UINT8,
            DataType::UInt16 => CODE_UINT16,
            DataType::UInt32 => CODE_UINT32,
            DataType::UInt64 => CODE_UINT64,
            DataType::Int8 => CODE_INT8,
            DataType::Int16 => CODE_INT16,
            DataType::Int32 => CODE_INT32,
            DataType::Int64 => CODE_INT64,
            DataType::Fp16 => CODE_FP16,
            DataType::Fp32 => CODE_FP32,
            DataType::Fp64 => CODE_FP64,
            DataType::Bytes => CODE_BYTES,
            DataType::Bf16 => CODE_BF16,
        }
    }

    /// The data type a native numeric code stands for; an unknown code is an
    /// error.
    pub fn try_from(code: u32) -> (r: Result<DataType, Error>)
        ensures
            match DataType::spec_from_code(code) {
                Some(dt) => r matches Ok(v) && v == dt,
                None => r matches Err(e) && e@ == "Unknown native data type code"@,
            },
    {
        if code == CODE_BOOL {
            Ok(DataType::Bool)
        } else if code == CODE_UINT8 {
            Ok(DataType::UInt8)
        } else if code == CODE_UINT16 {
            Ok(DataType::UInt16)
        } else if code == CODE_UINT32 {
            Ok(DataType::UInt32)
        } else if code == CODE_UINT64 {
            Ok(DataType::UInt64)
        } else if code == CODE_INT8 {
            Ok(DataType::Int8)
        } else if code == CODE_INT16 {
            Ok(DataType::Int16)
        } else if code == CODE_INT32 {
            Ok(DataType::Int32)
        } else if code == CODE_INT64 {
            Ok(DataType::Int64)
        } else if code == CODE_FP16 {
            Ok(DataType::Fp16)
        } else if code == CODE_FP32 {
            Ok(DataType::Fp32)
        } else if code == CODE_FP64 {
            Ok(DataType::Fp64)
        } else if code == CODE_BYTES {
            Ok(DataType::Bytes)
        } else if code == CODE_BF16 {
            Ok(DataType::Bf16)
        } else {
            Err(Error::new("Unknown native data type code"))
        }
    }

    /// The data type a configuration-text name stands for; an unknown name
    /// is an error.
    pub fn from_str(name: &str) -> (r: Result<DataType, Error>)
        ensures
            match DataType::spec_from_name(name@) {
                Some(dt) => r matches Ok(v) && v == dt,
                None => r matches Err(e) && e@ == "Unknown data type"@,
            },
    {
        if str_eq(name, "TYPE_BOOL") {
            Ok(DataType::Bool)
        } else if str_eq(name, "TYPE_UINT8") {
            Ok(DataType::UInt8)
        } else if str_eq(name, "TYPE_UINT16") {
            Ok(DataType::UInt16)
        } else if str_eq(name, "TYPE_UINT32") {
            Ok(DataType::UInt32)
        } else if str_eq(name, "TYPE_UINT64") {
            Ok(DataType::UInt64)
        } else if str_eq(name, "TYPE_INT8") {
            Ok(DataType::Int8)
        } else if str_eq(name, "TYPE_INT16") {
            Ok(DataType::Int16)
        } else if str_eq(name, "TYPE_INT32") {
            Ok(DataType::Int32)
        } else if str_eq(name, "TYPE_INT64") {
            Ok(DataType::Int64)
        } else if str_eq(name, "TYPE_FP16") {
            Ok(DataType::Fp16)
        } else if str_eq(name, "TYPE_FP32") {
            Ok(DataType::Fp32)
        } else if str_eq(name, "TYPE_FP64") {
            Ok(DataType::Fp64)
        } else if str_eq(name, "TYPE_BYTES") {
            Ok(DataType::Bytes)
        } else if str_eq(name, "TYPE_BF16") {
            Ok(DataType::Bf16)
        } else {
            Err(Error::new("Unknown data type"))
        }
    }

    /// The configuration-text name of this data type.
    pub fn as_str(self) -> (r: &'static str)
        ensures
            r@ == self.spec_name(),
    {
        match self {
            DataType::Bool => "TYPE_BOOL",
            DataType::UInt8 => "TYPE_UINT8",
            DataType::UInt16 => "TYPE_UINT16",
            DataType::UInt32 => "TYPE_UINT32",
            DataType::UInt64 => "TYPE_UINT64",
            DataType::Int8 => "TYPE_INT8",
            DataType::Int16 => "TYPE_INT16",
            DataType::Int32 => "TYPE_INT32",
            DataType::Int64 => "TYPE_INT64",
            DataType::Fp16 => "TYPE_FP16",
            DataType::Fp32 => "TYPE_FP32",
            DataType::Fp64 => "TYPE_FP64",
            DataType::Bytes => "TYPE_BYTES",
            DataType::Bf16 => "TYPE_BF16",
        }
    }
}

/// Every data type's native code maps back to that data type.
pub proof fn lemma_code_round_trip(dt: DataType)
    ensures
        DataType::spec_from_code(dt.spec_code()) == Some(dt),
{
}

/// Two character sequences differing at one index are different.
proof fn lemma_seq_ne_at(a: Seq<char>, b: Seq<char>, i: int)
    requires
        0 <= i < a.len(),
        0 <= i < b.len(),
        a[i] != b[i],
    ensures
        a != b,
{
    if a == b {
        assert(a[i] == b[i]);
    }
}

/// Every data type's configuration name maps back to that data type.
pub proof fn lemma_name_round_trip(dt: DataType)
    ensures
        DataType::spec_from_name(dt.spec_name()) == Some(dt),
{
    reveal_strlit("TYPE_BOOL");
    reveal_strlit("TYPE_UINT8");
    reveal_strlit("TYPE_UINT16");
    reveal_strlit("TYPE_UINT32");
    reveal_strlit("TYPE_UINT64");
    reveal_strlit("TYPE_INT8");
    reveal_strlit("TYPE_INT16");
    reveal_strlit("TYPE_INT32");
    reveal_strlit("TYPE_INT64");
    reveal_strlit("TYPE_FP16");
    reveal_strlit("TYPE_FP32");
    reveal_strlit("TYPE_FP64");
    reveal_strlit("TYPE_BYTES");
    reveal_strlit("TYPE_BF16");
    assert("TYPE_BOOL"@.len() == 9);
    assert("TYPE_UINT8"@.len() == 10);
    assert("TYPE_UINT16"@.len() == 11);
    assert("TYPE_UINT32"@.len() == 11);
    assert("TYPE_UINT64"@.len() == 11);
    assert("TYPE_INT8"@.len() == 9);
    assert("TYPE_INT16"@.len() == 10);
    assert("TYPE_INT32"@.len() == 10);
    assert("TYPE_INT64"@.len() == 10);
    assert("TYPE_FP16"@.len() == 9);
    assert("TYPE_FP32"@.len() == 9);
    assert("TYPE_FP64"@.len() == 9);
    assert("TYPE_BYTES"@.len() == 10);
    assert("TYPE_BF16"@.len() == 9);
    match dt {
        DataType::Bool => {
        },
        DataType::UInt8 => {
        },
        DataType::UInt16 => {
        },
        DataType::UInt32 => {
            lemma_seq_ne_at("TYPE_UINT32"@, "TYPE_UINT16"@, 9);
        },
        DataType::UInt64 => {
            lemma_seq_ne_at("TYPE_UINT64"@, "TYPE_UINT16"@, 9);
            lemma_seq_ne_at("TYPE_UINT64"@, "TYPE_UINT32"@, 9);
        },
        DataType::Int8 => {
            lemma_seq_ne_at("TYPE_INT8"@, "TYPE_BOOL"@, 5);
        },
        DataType::Int16 => {
            lemma_seq_ne_at("TYPE_INT16"@, "TYPE_UINT8"@, 5);
        },
        DataType::Int32 => {
            lemma_seq_ne_at("TYPE_INT32"@, "TYPE_UINT8"@, 5);
            lemma_seq_ne_at("TYPE_INT32"@, "TYPE_INT16"@, 8);
        },
        DataType::Int64 => {
            lemma_seq_ne_at("TYPE_INT64"@, "TYPE_UINT8"@, 5);
            lemma_seq_ne_at("TYPE_INT64"@, "TYPE_INT16"@, 8);
            lemma_seq_ne_at("TYPE_INT64"@, "TYPE_INT32"@, 8);
        },
        DataType::Fp16 => {
            lemma_seq_ne_at("TYPE_FP16"@, "TYPE_BOOL"@, 5);
            lemma_seq_ne_at("TYPE_FP16"@, "TYPE_INT8"@, 5);
        },
        DataType::Fp32 => {
            lemma_seq_ne_at("TYPE_FP32"@, "TYPE_BOOL"@, 5);
            lemma_seq_ne_at("TYPE_FP32"@, "TYPE_INT8"@, 5);
            lemma_seq_ne_at("TYPE_FP32"@, "TYPE_FP16"@, 7);
        },
        DataType::Fp64 => {
            lemma_seq_ne_at("TYPE_FP64"@, "TYPE_BOOL"@, 5);
            lemma_seq_ne_at("TYPE_FP64"@, "TYPE_INT8"@, 5);
            lemma_seq_ne_at("TYPE_FP64"@, "TYPE_FP16"@, 7);
            lemma_seq_ne_at("TYPE_FP64"@, "TYPE_FP32"@, 7);
        },
        DataType::Bytes => {
            lemma_seq_ne_at("TYPE_BYTES"@, "TYPE_UINT8"@, 5);
            lemma_seq_ne_at("TYPE_BYTES"@, "TYPE_INT16"@, 5);
            lemma_seq_ne_at("TYPE_BYTES"@, "TYPE_INT32"@, 5);
            lemma_seq_ne_at("TYPE_BYTES"@, "TYPE_INT64"@, 5);
        },
        DataType::Bf16 => {
            lemma_seq_ne_at("TYPE_BF16"@, "TYPE_BOOL"@, 6);
            lemma_seq_ne_at("TYPE_BF16"@, "TYPE_INT8"@, 5);
            lemma_seq_ne_at("TYPE_BF16"@, "TYPE_FP16"@, 6);
            lemma_seq_ne_at("TYPE_BF16"@, "TYPE_FP32"@, 6);
            lemma_seq_ne_at("TYPE_BF16"@, "TYPE_FP64"@, 6);
        },
    }
}

} // verus!
