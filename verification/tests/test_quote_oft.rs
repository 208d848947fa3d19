use oapps::errors::OFTError;
use oapps::oft_core::{quote_oft, SendParam};

// A Stellar asset has 7 decimals and the shared decimals are 6.
const CONVERSION_RATE: i128 = 10;

fn create_send_param(dst_eid: u32, amount_ld: i128, min_amount_ld: i128) -> SendParam {
    SendParam {
        dst_eid,
        to: [1u8; 32],
        amount_ld,
        min_amount_ld,
        extra_options: Vec::new(),
        compose_msg: Vec::new(),
        oft_cmd: Vec::new(),
    }
}

#[test]
fn test_quote_oft_basic() {
    let conversion_rate = CONVERSION_RATE;
    let amount_ld = 12345670i128;
    let dust_removed = (amount_ld / conversion_rate) * conversion_rate;
    let send_param = create_send_param(1, amount_ld, dust_removed);

    let (limit, fees, receipt) = quote_oft(&send_param, conversion_rate).unwrap();

    assert_eq!(limit.min_amount_ld, 0);
    assert_eq!(limit.max_amount_ld, u64::MAX as i128);
    assert_eq!(fees.len(), 0);
    assert_eq!(receipt.amount_sent_ld, dust_removed);
    assert_eq!(receipt.amount_received_ld, dust_removed);
}

#[test]
fn test_quote_oft_with_dust_removal() {
    let conversion_rate = CONVERSION_RATE;
    let amount_ld = 12345678i128;
    let dust_removed = (amount_ld / conversion_rate) * conversion_rate;
    let send_param = create_send_param(1, amount_ld, dust_removed);

    let (limit, fees, receipt) = quote_oft(&send_param, conversion_rate).unwrap();

    assert_eq!(limit.min_amount_ld, 0);
    assert_eq!(limit.max_amount_ld, u64::MAX as i128);
    assert_eq!(fees.len(), 0);
    assert_eq!(receipt.amount_sent_ld, dust_removed);
    assert_eq!(receipt.amount_received_ld, dust_removed);
}

#[test]
fn test_quote_oft_zero_amount() {
    let send_param = create_send_param(1, 0, 0);

    let (limit, fees, receipt) = quote_oft(&send_param, CONVERSION_RATE).unwrap();

    assert_eq!(receipt.amount_sent_ld, 0);
    assert_eq!(receipt.amount_received_ld, 0);
    assert_eq!(limit.min_amount_ld, 0);
    assert_eq!(limit.max_amount_ld, u64::MAX as i128);
    assert_eq!(fees.len(), 0);
}

#[test]
fn test_quote_oft_dust_only_amount() {
    let conversion_rate = CONVERSION_RATE;
    let amount_ld = conversion_rate - 1;
    let send_param = create_send_param(1, amount_ld, 0);

    let (_, _, receipt) = quote_oft(&send_param, conversion_rate).unwrap();

    assert_eq!(receipt.amount_sent_ld, 0);
    assert_eq!(receipt.amount_received_ld, 0);
}

#[test]
fn test_quote_oft_different_dst_eids() {
    let amount_ld = 12345670i128;

    for dst_eid in [1u32, 100, 10000, u32::MAX] {
        let send_param = create_send_param(dst_eid, amount_ld, amount_ld);
        let (limit, fees, receipt) = quote_oft(&send_param, CONVERSION_RATE).unwrap();

        assert_eq!(limit.min_amount_ld, 0);
        assert_eq!(limit.max_amount_ld, u64::MAX as i128);
        assert_eq!(fees.len(), 0);
        assert_eq!(receipt.amount_sent_ld, amount_ld);
        assert_eq!(receipt.amount_received_ld, amount_ld);
    }
}

#[test]
fn test_quote_oft_large_amounts() {
    let amount_ld = 1_000_000_000_000_000_000i128;
    let send_param = create_send_param(1, amount_ld, amount_ld);

    let (limit, fees, receipt) = quote_oft(&send_param, CONVERSION_RATE).unwrap();

    assert_eq!(limit.min_amount_ld, 0);
    assert_eq!(limit.max_amount_ld, u64::MAX as i128);
    assert_eq!(fees.len(), 0);
    assert_eq!(receipt.amount_sent_ld, amount_ld);
    assert_eq!(receipt.amount_received_ld, amount_ld);
}

#[test]
fn test_quote_oft_slippage_less_than_received() {
    let conversion_rate = CONVERSION_RATE;
    let amount_ld = 12345678i128;
    let dust_removed = (amount_ld / conversion_rate) * conversion_rate;
    let send_param = create_send_param(1, amount_ld, dust_removed - conversion_rate);

    let (_, _, receipt) = quote_oft(&send_param, conversion_rate).unwrap();

    assert_eq!(receipt.amount_sent_ld, dust_removed);
    assert_eq!(receipt.amount_received_ld, dust_removed);
}

#[test]
fn test_quote_oft_slippage_exceeded() {
    let amount_ld = 12345678i128;
    let send_param = create_send_param(1, amount_ld, amount_ld);

    let result = quote_oft(&send_param, CONVERSION_RATE);
    assert_eq!(result.err().unwrap(), OFTError::SlippageExceeded);
}

#[test]
fn quote_oft_negative_amount_is_invalid() {
    let send_param = create_send_param(1, -1, 0);
    assert_eq!(quote_oft(&send_param, CONVERSION_RATE).err().unwrap(), OFTError::InvalidAmount);
    let send_param = create_send_param(1, 10, -1);
    assert_eq!(quote_oft(&send_param, CONVERSION_RATE).err().unwrap(), OFTError::InvalidAmount);
}
