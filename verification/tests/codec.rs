use contact_sensor::codec::decode_bool;
use contact_sensor::codec::encode_attr_ids;
use contact_sensor::codec::encode_bool;
use contact_sensor::codec::encode_u32;
use contact_sensor::error::Error;

#[test]
fn encode_bool_exact() {
    assert_eq!(encode_bool(true), vec![1u8]);
    assert_eq!(encode_bool(false), vec![0u8]);
}

#[test]
fn decode_bool_accepts_both_encodings() {
    assert_eq!(decode_bool(&[1u8]), Ok(true));
    assert_eq!(decode_bool(&[0u8]), Ok(false));
}

#[test]
fn decode_bool_rejects_malformed() {
    assert_eq!(decode_bool(&[2u8]), Err(Error::MalformedData));
    assert_eq!(decode_bool(&[]), Err(Error::MalformedData));
    assert_eq!(decode_bool(&[0u8, 0u8]), Err(Error::MalformedData));
}

#[test]
fn bool_round_trip() {
    assert_eq!(decode_bool(&encode_bool(true)), Ok(true));
    assert_eq!(decode_bool(&encode_bool(false)), Ok(false));
}

#[test]
fn encode_u32_exact() {
    assert_eq!(encode_u32(0), vec![0u8, 0, 0, 0]);
    assert_eq!(encode_u32(0x12345678), vec![0x78u8, 0x56, 0x34, 0x12]);
    assert_eq!(encode_u32(u32::MAX), vec![0xFFu8, 0xFF, 0xFF, 0xFF]);
}

#[test]
fn encode_attr_ids_exact() {
    assert_eq!(encode_attr_ids(&vec![]), Vec::<u8>::new());
    assert_eq!(
        encode_attr_ids(&vec![0x0000u16, 0xFFFB, 0xFFFC]),
        vec![0x00u8, 0x00, 0xFB, 0xFF, 0xFC, 0xFF]
    );
}
