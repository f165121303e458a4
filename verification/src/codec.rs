//! The serialization substrate of the cluster core.
//!
//! The outer protocol owns its own wire framing; within this core an encoded
//! attribute value is a little-endian byte sequence. Booleans take one byte,
//! unsigned 32-bit values four, and an attribute-id list two bytes per id.

use vstd::prelude::*;

use crate::error::Error;

verus! {

/// The encoding of a boolean attribute value: a single byte, one or zero.
pub open spec fn encoded_bool(v: bool) -> Seq<u8> {
    if v {
        seq![1u8]
    } else {
        seq![0u8]
    }
}

/// The decoding of a boolean attribute payload: the two encodings of
/// `encoded_bool` are accepted, everything else is malformed.
pub open spec fn decoded_bool(bytes: Seq<u8>) -> Option<bool> {
    if bytes.len() == 1 && bytes[0] == 1 {
        Some(true)
    } else if bytes.len() == 1 && bytes[0] == 0 {
        Some(false)
    } else {
        None
    }
}

/// The little-endian encoding of an unsigned 32-bit value.
pub open spec fn encoded_u32(v: u32) -> Seq<u8> {
    seq![
        (v % 256) as u8,
        ((v / 256) % 256) as u8,
        ((v / 65536) % 256) as u8,
        ((v / 16777216) % 256) as u8,
    ]
}

/// The little-endian encoding of an unsigned 16-bit value.
pub open spec fn encoded_u16(v: u16) -> Seq<u8> {
    seq![(v % 256) as u8, ((v / 256) % 256) as u8]
}

/// The encoding of an attribute-id list: the ids' encodings, concatenated in
/// list order.
pub open spec fn encoded_attr_id_list(ids: Seq<u16>) -> Seq<u8>
    decreases ids.len(),
{
    if ids.len() == 0 {
        Seq::empty()
    } else {
        encoded_attr_id_list(ids.drop_last()) + encoded_u16(ids.last())
    }
}

/// Encode a boolean attribute value.
pub fn encode_bool(v: bool) -> (r: Vec<u8>)
    ensures
        r@ == encoded_bool(v),
{
    let mut r: Vec<u8> = Vec::new();
    if v {
        r.push(1);
    } else {
        r.push(0);
    }
    proof {
        assert(r@ =~= encoded_bool(v));
    }
    r
}

/// Decode a boolean attribute payload.
pub fn decode_bool(bytes: &[u8]) -> (r: Result<bool, Error>)
    ensures
        match r {
            Ok(v) => decoded_bool(bytes@) == Some(v),
            Err(e) => e == Error::MalformedData && decoded_bool(bytes@) is None,
        },
{
    if bytes.len() == 1 {
        if bytes[0] == 1 {
            Ok(true)
        } else if bytes[0] == 0 {
            Ok(false)
        } else {
            Err(Error::MalformedData)
        }
    } else {
        Err(Error::MalformedData)
    }
}

/// Encode an unsigned 32-bit value, little-endian.
pub fn encode_u32(v: u32) -> (r: Vec<u8>)
    ensures
        r@ == encoded_u32(v),
{
    let mut r: Vec<u8> = Vec::new();
    r.push((v % 256) as u8);
    r.push(((v / 256) % 256) as u8);
    r.push(((v / 65536) % 256) as u8);
    r.push(((v / 16777216) % 256) as u8);
    proof {
        assert(r@ =~= encoded_u32(v));
    }
    r
}

/// Encode an attribute-id list, two little-endian bytes per id.
pub fn encode_attr_ids(ids: &Vec<u16>) -> (r: Vec<u8>)
    ensures
        r@ == encoded_attr_id_list(ids@),
{
    let mut r: Vec<u8> = Vec::new();
    let mut i: usize = 0;
    while i < ids.len()
        invariant
            i <= ids@.len(),
            r@ == encoded_attr_id_list(ids@.take(i as int)),
        decreases ids@.len() - i,
    {
        let id = ids[i];
        r.push((id % 256) as u8);
        r.push(((id / 256) % 256) as u8);
        proof {
            let done = ids@.take(i as int + 1);
            assert(done.drop_last() =~= ids@.take(i as int));
            assert(done.last() == ids@[i as int]);
            assert(r@ =~= encoded_attr_id_list(done.drop_last()) + encoded_u16(done.last()));
        }
        i += 1;
    }
    proof {
        assert(ids@.take(ids@.len() as int) =~= ids@);
    }
    r
}

/// Round-trip law of the boolean codec: decoding an encoded value yields the
/// value back, for both values of the attribute's domain.
pub proof fn lemma_bool_round_trip(v: bool)
    ensures
        decoded_bool(encoded_bool(v)) == Some(v),
{
}

} // verus!
