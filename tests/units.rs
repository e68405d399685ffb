use ethers::types::U256;
use monad_mcp::units::{format_ether, parse_ether, AmountError};

#[test]
fn format_small_values() {
    assert_eq!(format_ether(U256::zero()), "0.000000000000000000");
    assert_eq!(format_ether(U256::one()), "0.000000000000000001");
    assert_eq!(format_ether(U256::exp10(18)), "1.000000000000000000");
}

#[test]
fn round_trip_boundaries() {
    let large = U256::MAX / U256::exp10(6) * U256::exp10(6);
    for x in [U256::zero(), U256::one(), U256::exp10(18), large, U256::MAX] {
        let text = format_ether(x);
        assert_eq!(parse_ether(&text), Ok(x), "{}", text);
    }
}

#[test]
fn parse_decimal_amounts() {
    assert_eq!(parse_ether("1"), Ok(U256::exp10(18)));
    assert_eq!(parse_ether("0.005"), Ok(U256::from(5_000_000_000_000_000u64)));
    assert_eq!(parse_ether(".5"), Ok(U256::from(500_000_000_000_000_000u64)));
    assert_eq!(parse_ether("2."), Ok(U256::from(2_000_000_000_000_000_000u64)));
    assert_eq!(parse_ether("0.0000000000000000019"), Ok(U256::one()));
}

#[test]
fn malformed_amounts() {
    for s in ["", ".", "1.2.3", "abc", "-1", "1e18", " 1", "1,5", "1_000"] {
        assert_eq!(parse_ether(s), Err(AmountError::Malformed), "{}", s);
    }
}

#[test]
fn too_large_amounts() {
    let over = "115792089237316195423570985008687907853269984665640564039458";
    assert_eq!(parse_ether(over), Err(AmountError::TooLarge));
    let max = format_ether(U256::MAX);
    assert_eq!(parse_ether(&max), Ok(U256::MAX));
}
