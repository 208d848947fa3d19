use oapps::u256::{U256Ext, U256};

#[test]
fn test_to_i128_with_small_value() {
    let val = U256::from_u128(100);
    assert_eq!(val.to_i128(), Some(100i128));
}

#[test]
fn test_to_i128_with_zero() {
    let val = U256::from_u128(0);
    assert_eq!(val.to_i128(), Some(0i128));
}

#[test]
fn test_to_i128_with_i128_max() {
    let val = U256::from_u128(i128::MAX as u128);
    assert_eq!(val.to_i128(), Some(i128::MAX));
}

#[test]
fn test_to_i128_with_value_larger_than_i128_max_returns_none() {
    // i128::MAX + 1 should not fit in i128
    let val = U256::from_u128((i128::MAX as u128) + 1);
    assert_eq!(val.to_i128(), None);
}

#[test]
fn test_to_i128_with_u128_max_returns_none() {
    let val = U256::from_u128(u128::MAX);
    assert_eq!(val.to_i128(), None);
}

#[test]
fn test_to_i128_with_high_bits_set_returns_none() {
    // from_parts takes (hi_hi, hi_lo, lo_hi, lo_lo); a non-zero high part exceeds u128::MAX
    let val = U256::from_parts(1, 0, 0, 0);
    assert_eq!(val.to_i128(), None);
}

#[test]
fn u256_bytes_roundtrip() {
    let val = U256::from_parts(1, 2, 3, 4);
    let bytes = val.to_be_bytes();
    assert_eq!(bytes.len(), 32);
    assert_eq!(bytes[7], 1);
    assert_eq!(bytes[15], 2);
    assert_eq!(bytes[23], 3);
    assert_eq!(bytes[31], 4);
    assert_eq!(U256::from_be_bytes(&bytes), Some(val));
    assert_eq!(U256::from_be_bytes(&bytes[1..]), None);
    assert_eq!(U256::from_u32(7).to_u128(), Some(7));
    assert_eq!(U256::from_parts(0, 1, 0, 0).to_u128(), None);
}
