use oapps::counter_codec::{encode, encode_with_value, msg_type, src_eid, value, MsgType};
use oapps::errors::{CounterError, DecodeError, Failure};

#[test]
fn test_encode_and_decode() {
    let _msg_type = 1;
    let _src_eid = 1;
    let data = encode(MsgType::from(_msg_type).unwrap(), _src_eid);
    assert_eq!(msg_type(&data).ok(), MsgType::from(_msg_type));
    assert_eq!(src_eid(&data), Ok(_src_eid));
}

#[test]
fn test_encode_and_decode_with_value() {
    let _msg_type = 1;
    let _src_eid = 1;
    let _value = 100u32;
    let data = encode_with_value(MsgType::from(_msg_type).unwrap(), _src_eid, _value);
    assert_eq!(msg_type(&data).ok(), MsgType::from(_msg_type));
    assert_eq!(src_eid(&data), Ok(_src_eid));
    assert_eq!(value(&data), Ok(_value as i128));
}

#[test]
fn test_msg_type() {
    let _msg_type = 1;
    let data = encode(MsgType::from(_msg_type).unwrap(), 1);
    assert_eq!(msg_type(&data).ok(), MsgType::from(_msg_type));
}

#[test]
fn test_zero_value_when_not_provided() {
    let data = encode(MsgType::from(1).unwrap(), 1);
    assert_eq!(value(&data), Ok(0i128));
}

#[test]
#[should_panic(expected = "EndOfInput")]
fn test_msg_type_panic_on_invalid_data() {
    let data: Vec<u8> = Vec::new();
    msg_type(&data).unwrap();
}

#[test]
#[should_panic(expected = "EndOfInput")]
fn test_src_eid_panic_on_invalid_data() {
    let data: Vec<u8> = Vec::new();
    src_eid(&data).unwrap();
}

#[test]
#[should_panic(expected = "BadLength")]
fn test_value_panic_on_short_value() {
    let mut data = encode(MsgType::from(1).unwrap(), 1);
    data.extend_from_slice(&[0u8; 3]);
    value(&data).unwrap();
}

#[test]
fn encoding_is_big_endian() {
    let data = encode(MsgType::ComposedABA, 0x0102_0304);
    assert_eq!(data, vec![4, 1, 2, 3, 4]);
    let data = encode_with_value(MsgType::Composed, 30101, 10);
    assert_eq!(data.len(), 37);
    assert_eq!(&data[..5], &[2, 0, 0, 0x75, 0x95]);
    assert!(data[5..36].iter().all(|b| *b == 0));
    assert_eq!(data[36], 10);
}

#[test]
fn msg_type_codes() {
    assert_eq!(MsgType::from(1), Some(MsgType::Vanilla));
    assert_eq!(MsgType::from(2), Some(MsgType::Composed));
    assert_eq!(MsgType::from(3), Some(MsgType::ABA));
    assert_eq!(MsgType::from(4), Some(MsgType::ComposedABA));
    assert_eq!(MsgType::from(0), None);
    assert_eq!(MsgType::from(5), None);
    assert_eq!(MsgType::ABA.code(), 3);
    assert_eq!(msg_type(&[9, 0, 0, 0, 1]), Err(DecodeError::UnknownMsgType));
}

#[test]
fn value_errors() {
    // too short for the source endpoint
    assert_eq!(value(&[1, 0, 0]), Err(Failure::Decode(DecodeError::EndOfInput)));
    // a value above i128::MAX
    let mut data = encode(MsgType::Vanilla, 1);
    data.push(0x80);
    data.extend_from_slice(&[0u8; 31]);
    assert_eq!(value(&data), Err(Failure::Counter(CounterError::InvalidMsgValue)));
    // exactly i128::MAX
    let mut data = encode(MsgType::Vanilla, 1);
    data.extend_from_slice(&[0u8; 16]);
    data.push(0x7f);
    data.extend_from_slice(&[0xffu8; 15]);
    assert_eq!(value(&data), Ok(i128::MAX));
}
