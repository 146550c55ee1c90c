//! The byte-tensor codec: the wire format that carries a sequence of
//! variable-length strings inside one tensor payload.
//!
//! A payload is a run of records, each `4-byte little-endian length` followed
//! by that many raw UTF-8 bytes, with no count prefix and no terminator: the
//! end of the buffer ends the sequence. A length that would read past the end
//! of the buffer is a decode error. The layout is a wire contract with the
//! host and must round-trip byte-for-byte.

use crate::error::Error;
use vstd::bytes::{
    lemma_auto_spec_u32_to_from_le_bytes, spec_u32_from_le_bytes, spec_u32_to_le_bytes,
    u32_from_le_bytes, u32_to_le_bytes,
};
use vstd::prelude::*;
use vstd::string::StringSliceAdditionalSpecFns;
use vstd::utf8::{decode_utf8, encode_utf8, valid_utf8};

verus! {

/// The encoding of one string: its UTF-8 byte length as four little-endian
/// bytes, then the bytes themselves.
pub open spec fn wire_record(s: Seq<char>) -> Seq<u8> {
    spec_u32_to_le_bytes(encode_utf8(s).len() as u32) + encode_utf8(s)
}

/// The encoding of a sequence of strings: their records, one after another.
pub open spec fn wire_encode(strings: Seq<Seq<char>>) -> Seq<u8>
    decreases strings.len(),
{
    if strings.len() == 0 {
        Seq::empty()
    } else {
        wire_record(strings[0]) + wire_encode(strings.drop_first())
    }
}

/// Splits a payload into the byte chunks its records carry, in order.
/// `None` when a length prefix is truncated or claims more bytes than
/// remain.
pub open spec fn wire_split(data: Seq<u8>) -> Option<Seq<Seq<u8>>>
    decreases data.len(),
{
    if data.len() == 0 {
        Some(Seq::empty())
    } else if data.len() < 4 {
        None
    } else {
        let n = spec_u32_from_le_bytes(data.subrange(0, 4)) as int;
        if data.len() < 4 + n {
            None
        } else {
            match wire_split(data.subrange(4 + n, data.len() as int)) {
                Some(rest) => Some(seq![data.subrange(4, 4 + n)] + rest),
                None => None,
            }
        }
    }
}

/// The strings a payload carries: each record's bytes decoded as UTF-8.
pub open spec fn wire_decode(data: Seq<u8>) -> Option<Seq<Seq<char>>> {
    match wire_split(data) {
        Some(chunks) => Some(chunks.map_values(|c: Seq<u8>| decode_utf8(c))),
        None => None,
    }
}

/// What `String::from_utf8_lossy` makes of a byte sequence.
pub uninterp spec fn lossy_decode(bytes: Seq<u8>) -> Seq<char>;

/// Relies on `String::from_utf8_lossy`: the result depends on the bytes
/// alone, and on valid UTF-8 input it is exactly the decoded string.
#[verifier::external_body]
fn utf8_lossy_to_string(bytes: &[u8]) -> (r: String)
    ensures
        r@ == lossy_decode(bytes@),
        valid_utf8(bytes@) ==> r@ == decode_utf8(bytes@),
{
    String::from_utf8_lossy(bytes).into_owned()
}

/// Encodes one string as a wire record.
///
/// The record's length field is four bytes, so the string's UTF-8 byte
/// length must fit in it.
pub fn encode_string(value: &str) -> (r: Vec<u8>)
    requires
        encode_utf8(value@).len() <= u32::MAX,
    ensures
        r@ == wire_record(value@),
{
    let bytes = value.as_bytes();
    let mut out = u32_to_le_bytes(bytes.len() as u32);
    let mut k: usize = 0;
    while k < bytes.len()
        invariant
            bytes@ == encode_utf8(value@),
            bytes@.len() <= u32::MAX,
            k <= bytes@.len(),
            out@ == spec_u32_to_le_bytes(bytes@.len() as u32) + bytes@.subrange(0, k as int),
        decreases bytes@.len() - k,
    {
        out.push(bytes[k]);
        k = k + 1;
        proof {
            assert(out@ =~= spec_u32_to_le_bytes(bytes@.len() as u32) + bytes@.subrange(
                0,
                k as int,
            ));
        }
    }
    proof {
        assert(bytes@.subrange(0, bytes@.len() as int) =~= bytes@);
        assert(out@ =~= wire_record(value@));
    }
    out
}

/// Encodes a sequence of strings as one payload: their records, one after
/// another.
pub fn encode_strings(values: &Vec<String>) -> (r: Vec<u8>)
    requires
        forall|i: int| 0 <= i < values@.len() ==> encode_utf8(values@[i]@).len() <= u32::MAX,
    ensures
        r@ == wire_encode(values@.map_values(|s: String| s@)),
{
    let ghost strings = values@.map_values(|s: String| s@);
    let mut out: Vec<u8> = Vec::new();
    let mut k: usize = 0;
    while k < values.len()
        invariant
            strings == values@.map_values(|s: String| s@),
            forall|i: int| 0 <= i < values@.len() ==> encode_utf8(values@[i]@).len() <= u32::MAX,
            k <= values@.len(),
            out@ == wire_encode(strings.subrange(0, k as int)),
        decreases values@.len() - k,
    {
        let mut rec = encode_string(values[k].as_str());
        out.append(&mut rec);
        k = k + 1;
        proof {
            lemma_wire_encode_snoc(strings.subrange(0, k as int));
            assert(strings.subrange(0, k as int).drop_last() =~= strings.subrange(
                0,
                k as int - 1,
            ));
        }
    }
    proof {
        assert(strings.subrange(0, strings.len() as int) =~= strings);
    }
    out
}

/// Appending one string to a sequence appends its record to the encoding.
proof fn lemma_wire_encode_snoc(strings: Seq<Seq<char>>)
    requires
        strings.len() > 0,
    ensures
        wire_encode(strings) == wire_encode(strings.drop_last()) + wire_record(strings.last()),
    decreases strings.len(),
{
    if strings.len() == 1 {
        assert(strings.drop_first() =~= Seq::<Seq<char>>::empty());
        assert(strings.drop_last() =~= Seq::<Seq<char>>::empty());
        assert(wire_encode(strings.drop_last()) + wire_record(strings.last()) =~= wire_record(
            strings[0],
        ) + wire_encode(strings.drop_first()));
    } else {
        lemma_wire_encode_snoc(strings.drop_first());
        assert(strings.drop_first().drop_last() =~= strings.drop_last().drop_first());
        assert(strings.drop_first().last() == strings.last());
        assert(strings.drop_last()[0] == strings[0]);
        assert(wire_encode(strings) == wire_record(strings[0]) + (wire_encode(
            strings.drop_last().drop_first(),
        ) + wire_record(strings.last())));
        assert(wire_encode(strings) =~= (wire_record(strings.drop_last()[0]) + wire_encode(
            strings.drop_last().drop_first(),
        )) + wire_record(strings.last()));
    }
}

/// Decodes a payload into the strings it carries.
///
/// Fails exactly when some record is truncated: a length prefix of fewer
/// than four bytes, or a length that claims more bytes than remain. Records
/// whose bytes are valid UTF-8 decode exactly; others go through the lossy
/// conversion.
pub fn decode_string(data: &[u8]) -> (r: Result<Vec<String>, Error>)
    ensures
        r is Ok <==> wire_split(data@) is Some,
        r matches Ok(v) ==> {
            let chunks = wire_split(data@)->Some_0;
            &&& v@.len() == chunks.len()
            &&& forall|i: int| 0 <= i < chunks.len() ==> v@[i]@ == lossy_decode(chunks[i])
            &&& forall|i: int|
                0 <= i < chunks.len() && valid_utf8(chunks[i]) ==> v@[i]@ == decode_utf8(chunks[i])
        },
        r matches Err(e) ==> e@ == "byte tensor payload is truncated"@,
{
    let mut strings: Vec<String> = Vec::new();
    let mut i: usize = 0;
    let ghost mut done: Seq<Seq<u8>> = Seq::empty();
    proof {
        assert(data@.subrange(0, data@.len() as int) =~= data@);
    }
    while i < data.len()
        invariant
            i <= data@.len(),
            wire_split(data@) is Some <==> wire_split(
                data@.subrange(i as int, data@.len() as int),
            ) is Some,
            wire_split(data@) matches Some(chunks) ==> chunks == done + wire_split(
                data@.subrange(i as int, data@.len() as int),
            )->Some_0,
            strings@.len() == done.len(),
            forall|j: int| 0 <= j < done.len() ==> strings@[j]@ == lossy_decode(done[j]),
            forall|j: int|
                0 <= j < done.len() && valid_utf8(done[j]) ==> strings@[j]@ == decode_utf8(done[j]),
        decreases data@.len() - i,
    {
        let ghost rest0 = data@.subrange(i as int, data@.len() as int);
        let remaining = data.len() - i;
        if remaining < 4 {
            return Err(Error::new("byte tensor payload is truncated"));
        }
        let len_field = &data[i..i + 4];
        proof {
            assert(len_field@ =~= rest0.subrange(0, 4));
        }
        let wide = u32_from_le_bytes(len_field);
        let wide_usize = wide as usize;
        if remaining - 4 < wide_usize {
            return Err(Error::new("byte tensor payload is truncated"));
        }
        let chunk = &data[i + 4..i + 4 + wide_usize];
        proof {
            assert(chunk@ =~= rest0.subrange(4, 4 + wide as int));
        }
        let string = utf8_lossy_to_string(chunk);
        strings.push(string);
        i = i + 4 + wide_usize;
        proof {
            let rest1 = data@.subrange(i as int, data@.len() as int);
            assert(rest1 =~= rest0.subrange(4 + wide as int, rest0.len() as int));
            assert(wire_split(rest0) == (match wire_split(rest1) {
                Some(rest) => Some(seq![rest0.subrange(4, 4 + wide as int)] + rest),
                None => None,
            }));
            if wire_split(rest1) is Some {
                assert((done + wire_split(rest0)->Some_0) =~= (done.push(chunk@) + wire_split(
                    rest1,
                )->Some_0));
            }
            done = done.push(chunk@);
        }
    }
    proof {
        assert(data@.subrange(i as int, data@.len() as int) =~= Seq::<u8>::empty());
        assert(wire_split(Seq::<u8>::empty()) == Some(Seq::<Seq<u8>>::empty()));
        if wire_split(data@) is Some {
            assert(wire_split(data@)->Some_0 =~= done);
        }
    }
    Ok(strings)
}

/// Round trip: decoding the encoding of any sequence of strings gives the
/// sequence back, provided each string's UTF-8 byte length fits the four-byte
/// length field.
pub proof fn lemma_round_trip(strings: Seq<Seq<char>>)
    requires
        forall|i: int| 0 <= i < strings.len() ==> encode_utf8(strings[i]).len() <= u32::MAX,
    ensures
        wire_decode(wire_encode(strings)) == Some(strings),
    decreases strings.len(),
{
    broadcast use vstd::utf8::encode_utf8_decode_utf8;

    lemma_auto_spec_u32_to_from_le_bytes();
    if strings.len() == 0 {
        assert(wire_encode(strings) =~= Seq::<u8>::empty());
        assert(wire_split(wire_encode(strings)) == Some(Seq::<Seq<u8>>::empty()));
        assert(Seq::<Seq<u8>>::empty().map_values(|c: Seq<u8>| decode_utf8(c)) =~= strings);
    } else {
        let head = strings[0];
        let bytes = encode_utf8(head);
        let n = bytes.len() as int;
        let data = wire_encode(strings);
        let tail_data = wire_encode(strings.drop_first());
        assert(data == wire_record(head) + tail_data);
        assert(wire_record(head).len() == 4 + n);
        assert(data.len() == 4 + n + tail_data.len());
        assert(data.subrange(0, 4) =~= spec_u32_to_le_bytes(n as u32));
        assert(spec_u32_from_le_bytes(data.subrange(0, 4)) == n as u32);
        assert(data.subrange(4, 4 + n) =~= bytes);
        assert(data.subrange(4 + n, data.len() as int) =~= tail_data);
        lemma_round_trip(strings.drop_first());
        let rest_chunks = wire_split(tail_data)->Some_0;
        assert(wire_split(data) == Some(seq![bytes] + rest_chunks));
        let chunks = seq![bytes] + rest_chunks;
        assert(chunks.map_values(|c: Seq<u8>| decode_utf8(c)) =~= strings) by {
            assert(decode_utf8(bytes) == head);
            assert(rest_chunks.map_values(|c: Seq<u8>| decode_utf8(c)) == strings.drop_first());
            assert forall|i: int| 0 <= i < strings.len() implies decode_utf8(chunks[i])
                == strings[i] by {
                if i > 0 {
                    assert(chunks[i] == rest_chunks[i - 1]);
                    assert(rest_chunks.map_values(|c: Seq<u8>| decode_utf8(c))[i - 1]
                        == decode_utf8(rest_chunks[i - 1]));
                    assert(strings.drop_first()[i - 1] == strings[i]);
                }
            }
        }
    }
}

} // verus!
