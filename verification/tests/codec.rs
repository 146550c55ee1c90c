use triton_rs::codec::encode_strings;
use triton_rs::{decode_string, encode_string};

#[test]
fn encode_cat_exact_bytes() {
    let bytes = encode_string("cat");
    assert_eq!(bytes, vec![0x03, 0x00, 0x00, 0x00, 0x63, 0x61, 0x74]);
}

#[test]
fn encode_cat_dogs_exact_bytes() {
    let mut bytes = encode_string("cat");
    bytes.extend_from_slice(&encode_string("dogs"));
    let expected = vec![
        0x03, 0x00, 0x00, 0x00, 0x63, 0x61, 0x74, 0x04, 0x00, 0x00, 0x00, 0x64, 0x6F, 0x67, 0x73,
    ];
    assert_eq!(bytes, expected);
    let both = encode_strings(&vec!["cat".to_string(), "dogs".to_string()]);
    assert_eq!(both, expected);
}

#[test]
fn decode_cat_dogs() {
    let bytes = vec![
        0x03, 0x00, 0x00, 0x00, 0x63, 0x61, 0x74, 0x04, 0x00, 0x00, 0x00, 0x64, 0x6F, 0x67, 0x73,
    ];
    let strings = decode_string(&bytes).unwrap();
    assert_eq!(strings, vec!["cat".to_string(), "dogs".to_string()]);
}

#[test]
fn round_trip_various_strings() {
    let strings = vec![
        "".to_string(),
        "cat".to_string(),
        "dogs".to_string(),
        "h\u{e9}llo w\u{f6}rld \u{4f60}\u{597d}".to_string(),
        "a".repeat(1000),
    ];
    let encoded = encode_strings(&strings);
    let decoded = decode_string(&encoded).unwrap();
    assert_eq!(decoded, strings);
}

#[test]
fn round_trip_single_empty_string() {
    let encoded = encode_string("");
    assert_eq!(encoded, vec![0x00, 0x00, 0x00, 0x00]);
    let decoded = decode_string(&encoded).unwrap();
    assert_eq!(decoded, vec!["".to_string()]);
}

#[test]
fn encode_no_strings_is_empty_payload() {
    assert!(encode_strings(&vec![]).is_empty());
}

#[test]
fn decode_empty_buffer_is_empty_sequence() {
    let decoded = decode_string(&[]).unwrap();
    assert!(decoded.is_empty());
}

#[test]
fn decode_truncated_length_prefix_fails() {
    let result = decode_string(&[0x03, 0x00, 0x00]);
    let err = result.err().expect("truncated length prefix must fail");
    assert_eq!(err.message(), "byte tensor payload is truncated");
}

#[test]
fn decode_length_past_end_fails() {
    // The prefix claims five bytes; only two remain.
    let result = decode_string(&[0x05, 0x00, 0x00, 0x00, 0x01, 0x02]);
    let err = result.err().expect("overlong length must fail");
    assert_eq!(err.message(), "byte tensor payload is truncated");
}

#[test]
fn decode_second_record_truncated_fails() {
    let mut bytes = encode_string("ok");
    bytes.extend_from_slice(&[0x02, 0x00, 0x00, 0x00, 0x61]);
    assert!(decode_string(&bytes).is_err());
}

#[test]
fn decode_invalid_utf8_is_lossy() {
    let bytes = vec![0x01, 0x00, 0x00, 0x00, 0xFF];
    let decoded = decode_string(&bytes).unwrap();
    assert_eq!(decoded, vec!["\u{FFFD}".to_string()]);
}
