use triton_rs::datatype::{CODE_BF16, CODE_BOOL, CODE_BYTES, CODE_FP32, CODE_INT64, CODE_UINT8};
use triton_rs::DataType;

#[test]
fn codes_match_native_enumeration() {
    assert_eq!(DataType::Bool.code(), 1);
    assert_eq!(DataType::UInt8.code(), 2);
    assert_eq!(DataType::UInt16.code(), 3);
    assert_eq!(DataType::UInt32.code(), 4);
    assert_eq!(DataType::UInt64.code(), 5);
    assert_eq!(DataType::Int8.code(), 6);
    assert_eq!(DataType::Int16.code(), 7);
    assert_eq!(DataType::Int32.code(), 8);
    assert_eq!(DataType::Int64.code(), 9);
    assert_eq!(DataType::Fp16.code(), 10);
    assert_eq!(DataType::Fp32.code(), 11);
    assert_eq!(DataType::Fp64.code(), 12);
    assert_eq!(DataType::Bytes.code(), 13);
    assert_eq!(DataType::Bf16.code(), 14);
}

#[test]
fn try_from_known_codes() {
    assert_eq!(DataType::try_from(CODE_BOOL).unwrap(), DataType::Bool);
    assert_eq!(DataType::try_from(CODE_UINT8).unwrap(), DataType::UInt8);
    assert_eq!(DataType::try_from(CODE_INT64).unwrap(), DataType::Int64);
    assert_eq!(DataType::try_from(CODE_FP32).unwrap(), DataType::Fp32);
    assert_eq!(DataType::try_from(CODE_BYTES).unwrap(), DataType::Bytes);
    assert_eq!(DataType::try_from(CODE_BF16).unwrap(), DataType::Bf16);
}

#[test]
fn try_from_unknown_code_fails() {
    let err = DataType::try_from(0).err().expect("code zero is not a data type");
    assert_eq!(err.message(), "Unknown native data type code");
    assert!(DataType::try_from(15).is_err());
}

#[test]
fn from_str_known_names() {
    assert_eq!(DataType::from_str("TYPE_BOOL").unwrap(), DataType::Bool);
    assert_eq!(DataType::from_str("TYPE_UINT16").unwrap(), DataType::UInt16);
    assert_eq!(DataType::from_str("TYPE_INT8").unwrap(), DataType::Int8);
    assert_eq!(DataType::from_str("TYPE_FP64").unwrap(), DataType::Fp64);
    assert_eq!(DataType::from_str("TYPE_BYTES").unwrap(), DataType::Bytes);
    assert_eq!(DataType::from_str("TYPE_BF16").unwrap(), DataType::Bf16);
}

#[test]
fn from_str_unknown_name_fails() {
    let err = DataType::from_str("TYPE_COMPLEX").err().unwrap();
    assert_eq!(err.message(), "Unknown data type");
    assert!(DataType::from_str("").is_err());
}

#[test]
fn as_str_round_trips_through_from_str() {
    let all = [
        DataType::Bool,
        DataType::UInt8,
        DataType::UInt16,
        DataType::UInt32,
        DataType::UInt64,
        DataType::Int8,
        DataType::Int16,
        DataType::Int32,
        DataType::Int64,
        DataType::Fp16,
        DataType::Fp32,
        DataType::Fp64,
        DataType::Bytes,
        DataType::Bf16,
    ];
    for dt in all {
        assert_eq!(DataType::from_str(dt.as_str()).unwrap(), dt);
        assert_eq!(DataType::try_from(dt.code()).unwrap(), dt);
    }
}

#[test]
fn bytes_name_is_exact() {
    assert_eq!(DataType::Bytes.as_str(), "TYPE_BYTES");
}
