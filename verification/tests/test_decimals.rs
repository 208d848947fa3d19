use oapps::errors::OFTError;
use oapps::oft_core::{decimal_conversion_rate, init_decimals_diff, shared_decimals};
use oapps::oft_utils::{remove_dust, to_ld, to_sd};

// A Stellar asset has 7 decimals; the default shared decimals are 6.
const TOKEN_DECIMALS: u32 = 7;
const SHARED_DECIMALS: u32 = 6;

#[test]
fn test_decimal_conversion_rate() {
    let diff = init_decimals_diff(TOKEN_DECIMALS, SHARED_DECIMALS).unwrap();
    let rate = decimal_conversion_rate(diff);
    assert_eq!(rate, 10_i128.pow(TOKEN_DECIMALS - SHARED_DECIMALS));
}

#[test]
#[should_panic(expected = "InvalidLocalDecimals")]
fn test_invalid_local_decimals() {
    init_decimals_diff(5, 6).unwrap();
}

#[test]
#[should_panic]
fn test_to_ld_overflow() {
    // 10^38 * 10 > i128::MAX - should overflow
    let conversion_rate = 10_i128.pow(38);
    let amount_sd = 10u64;

    to_ld(amount_sd, conversion_rate);
}

#[test]
#[should_panic(expected = "Overflow")]
fn test_to_sd_overflow() {
    // u64::MAX + 1 exceeds u64 range - should overflow
    let conversion_rate = 1i128;
    let amount_ld = u64::MAX as i128 + 1;

    to_sd(amount_ld, conversion_rate).unwrap();
}

#[test]
fn test_to_ld_basic() {
    // Conversion rate = 10 (7 decimals - 6 shared = 1 decimal difference)
    let conversion_rate = 10i128;

    assert_eq!(to_ld(0, conversion_rate), 0);
    assert_eq!(to_ld(1, conversion_rate), 10);
    assert_eq!(to_ld(100, conversion_rate), 1_000);
    assert_eq!(to_ld(1_000_000, conversion_rate), 10_000_000);
}

#[test]
fn test_to_sd_basic() {
    let conversion_rate = 10i128;

    assert_eq!(to_sd(0, conversion_rate), Ok(0));
    assert_eq!(to_sd(10, conversion_rate), Ok(1));
    assert_eq!(to_sd(1_000, conversion_rate), Ok(100));
    assert_eq!(to_sd(10_000_000, conversion_rate), Ok(1_000_000));
}

#[test]
fn test_to_sd_truncates_dust() {
    let conversion_rate = 10i128;

    // 15 LD -> 1 SD (5 is dust, truncated via division)
    assert_eq!(to_sd(15, conversion_rate), Ok(1));
    // 19 LD -> 1 SD (9 is dust, truncated)
    assert_eq!(to_sd(19, conversion_rate), Ok(1));
    // 20 LD -> 2 SD (exact)
    assert_eq!(to_sd(20, conversion_rate), Ok(2));
}

#[test]
fn test_shared_decimals_default() {
    let diff = init_decimals_diff(TOKEN_DECIMALS, SHARED_DECIMALS).unwrap();
    let shared = shared_decimals(TOKEN_DECIMALS, diff);
    assert_eq!(shared, SHARED_DECIMALS);
    assert_eq!(shared, 6);
}

#[test]
fn test_shared_decimals_equal_to_local() {
    // When shared_decimals == local_decimals, conversion_rate = 1
    let diff = init_decimals_diff(8, 8).unwrap();
    assert_eq!(shared_decimals(8, diff), 8);
    assert_eq!(decimal_conversion_rate(diff), 1);
}

#[test]
fn test_shared_decimals_large_difference() {
    // 18 local decimals, 6 shared decimals -> conversion_rate = 10^12
    let diff = init_decimals_diff(18, 6).unwrap();
    assert_eq!(shared_decimals(18, diff), 6);
    assert_eq!(decimal_conversion_rate(diff), 10_i128.pow(12));
}

#[test]
fn remove_dust_truncates_toward_zero() {
    assert_eq!(remove_dust(12345678, 10), 12345670);
    assert_eq!(remove_dust(12345670, 10), 12345670);
    assert_eq!(remove_dust(9, 10), 0);
    assert_eq!(remove_dust(-15, 10), -10);
    assert_eq!(remove_dust(15, -10), 10);
    assert_eq!(remove_dust(i128::MIN, i128::MIN), i128::MIN);
    assert_eq!(remove_dust(i128::MAX, i128::MIN), 0);
    // removing dust twice removes no more
    assert_eq!(remove_dust(remove_dust(987654321, 1000), 1000), 987654000);
}

#[test]
fn to_sd_matches_rust_division_and_cast() {
    assert_eq!(to_sd(-15, 10), Ok((-1i128) as u64));
    assert_eq!(to_sd(25, -10), Ok((-2i128) as u64));
    assert_eq!(to_sd(u64::MAX as i128 * 10 + 9, 10), Ok(u64::MAX));
    assert_eq!(to_sd(u64::MAX as i128 * 10 + 10, 10), Err(OFTError::Overflow));
    // a dust-free amount survives the trip to shared decimals and back
    let amount = remove_dust(1_000_000_000_000_000_007, 1_000_000);
    assert_eq!(to_ld(to_sd(amount, 1_000_000).unwrap(), 1_000_000), amount);
}

#[test]
fn decimal_conversion_rate_extremes() {
    assert_eq!(decimal_conversion_rate(0), 1);
    assert_eq!(decimal_conversion_rate(38), 10_i128.pow(38));
}
