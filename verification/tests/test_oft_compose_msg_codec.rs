use oapps::oft_codec::OFTComposeMsg;

#[test]
fn test_encode_and_decode_basic() {
    let nonce = 12345u64;
    let src_eid = 101u32;
    let amount_ld = 1_000_000_000i128; // 1 token with 9 decimals
    let compose_from = [0x42u8; 32];
    let compose_msg = b"test compose message".to_vec();

    let msg = OFTComposeMsg { nonce, src_eid, amount_ld, compose_from, compose_msg: compose_msg.clone() };

    let encoded = msg.encode();
    let decoded = OFTComposeMsg::decode(&encoded).unwrap();

    assert_eq!(decoded.nonce, nonce);
    assert_eq!(decoded.src_eid, src_eid);
    assert_eq!(decoded.amount_ld, amount_ld);
    assert_eq!(decoded.compose_from, compose_from);
    assert_eq!(decoded.compose_msg, compose_msg);
}

#[test]
fn test_encode_with_empty_compose_msg() {
    let nonce = 123u64;
    let src_eid = 1u32;
    let amount_ld = 1_000_000i128;
    let compose_from = [0x11u8; 32];
    let compose_msg: Vec<u8> = Vec::new();

    let msg = OFTComposeMsg { nonce, src_eid, amount_ld, compose_from, compose_msg };

    let encoded = msg.encode();
    let decoded = OFTComposeMsg::decode(&encoded).unwrap();

    assert_eq!(decoded.nonce, nonce);
    assert_eq!(decoded.src_eid, src_eid);
    assert_eq!(decoded.amount_ld, amount_ld);
    assert_eq!(decoded.compose_from, compose_from);
    assert_eq!(decoded.compose_msg.len(), 0);
}

#[test]
#[should_panic]
fn test_oft_compose_msg_codec_test_decode_panic_on_empty_data() {
    let data: Vec<u8> = Vec::new();
    OFTComposeMsg::decode(&data).unwrap();
}

#[test]
#[should_panic]
fn test_oft_compose_msg_codec_test_decode_panic_on_insufficient_data() {
    // Only 30 bytes - not enough for nonce(8) + src_eid(4) + amount_ld(16) + compose_from(32)
    let data = vec![0u8; 30];
    OFTComposeMsg::decode(&data).unwrap();
}

#[test]
fn compose_msg_layout_and_negative_amount() {
    let msg = OFTComposeMsg {
        nonce: 1,
        src_eid: 2,
        amount_ld: -1,
        compose_from: [3u8; 32],
        compose_msg: vec![4, 5],
    };
    let encoded = msg.encode();
    assert_eq!(encoded.len(), 62);
    assert_eq!(&encoded[..12], &[0, 0, 0, 0, 0, 0, 0, 1, 0, 0, 0, 2]);
    assert!(encoded[12..28].iter().all(|b| *b == 0xff));
    assert_eq!(OFTComposeMsg::decode(&encoded).unwrap(), msg);
    let min = OFTComposeMsg { amount_ld: i128::MIN, ..msg.clone() };
    assert_eq!(OFTComposeMsg::decode(&min.encode()).unwrap().amount_ld, i128::MIN);
}
