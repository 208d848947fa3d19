use oapps::errors::{DecodeError, Failure};
use oapps::oapp::Origin;
use oapps::oft_codec::{ComposeData, OFTComposeMsg, OFTMessage};
use oapps::oft_core::{plan_receive, receive_compose_msg};

// A Stellar asset has 7 decimals and the shared decimals are 6.
const CONVERSION_RATE: i128 = 10;

#[test]
fn test_mint_burn_lz_receive_with_compose() {
    let recipient_bytes32 = [3u8; 32];
    let compose_from = [4u8; 32];
    let compose_msg = b"test compose payload".to_vec();
    let amount_sd = 1000000u64;
    let message = OFTMessage {
        send_to: recipient_bytes32,
        amount_sd,
        compose: Some(ComposeData { from: compose_from, msg: compose_msg.clone() }),
    }
    .encode();
    let origin = Origin { src_eid: 100, sender: [2u8; 32], nonce: 1 };

    let plan = plan_receive(&message, CONVERSION_RATE).unwrap();

    let expected_amount_ld = (amount_sd as i128) * CONVERSION_RATE;
    assert_eq!(plan.amount_ld, expected_amount_ld);
    assert_eq!(plan.send_to, recipient_bytes32);

    // the compose message carries the credited amount and the path's context
    let compose = plan.compose.unwrap();
    let forwarded = OFTComposeMsg::decode(&receive_compose_msg(&origin, plan.amount_ld, &compose)).unwrap();
    assert_eq!(forwarded.nonce, 1);
    assert_eq!(forwarded.src_eid, 100);
    assert_eq!(forwarded.amount_ld, expected_amount_ld);
    assert_eq!(forwarded.compose_from, compose_from);
    assert_eq!(forwarded.compose_msg, compose_msg);
}

#[test]
fn test_mint_burn_lz_receive_zero_amount() {
    let message = OFTMessage { send_to: [3u8; 32], amount_sd: 0, compose: None }.encode();
    let plan = plan_receive(&message, CONVERSION_RATE).unwrap();
    assert_eq!(plan.amount_ld, 0);
    assert!(plan.compose.is_none());
}

#[test]
fn receive_refuses_truncated_and_oversized() {
    assert_eq!(plan_receive(&[0u8; 39], CONVERSION_RATE), Err(Failure::Decode(DecodeError::EndOfInput)));
    let message = OFTMessage { send_to: [3u8; 32], amount_sd: u64::MAX, compose: None }.encode();
    assert_eq!(plan_receive(&message, 10_i128.pow(20)), Err(Failure::Overflow));
    assert_eq!(plan_receive(&message, 10_i128.pow(18)).unwrap().amount_ld, u64::MAX as i128 * 10_i128.pow(18));
}
