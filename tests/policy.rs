use unclaims::policy::{fee_matches, forwarded_gas_budget, required_fee, WIND_DOWN_GAS, WIND_DOWN_MULTIPLE};

#[test]
fn fee_is_gas_times_price() {
    assert_eq!(required_fee(100_000, 3, 9), Some(300_000));
}

#[test]
fn zero_price_takes_base_fee() {
    assert_eq!(required_fee(100_000, 0, 9), Some(900_000));
}

#[test]
fn fee_overflow_is_none() {
    assert_eq!(required_fee(u128::MAX, 2, 0), None);
    assert!(!fee_matches(u128::MAX, 2, 0, u128::MAX));
}

#[test]
fn fee_match_is_exact() {
    assert!(fee_matches(10, 5, 0, 50));
    assert!(!fee_matches(10, 5, 0, 49));
    assert!(!fee_matches(10, 5, 0, 51));
}

#[test]
fn gas_budget_is_scaled_and_capped() {
    assert_eq!(forwarded_gas_budget(640_000, 1_000_000), Some(630_000));
    assert_eq!(forwarded_gas_budget(640_000, 200_000), Some(200_000));
    let floor = WIND_DOWN_MULTIPLE * WIND_DOWN_GAS;
    assert_eq!(forwarded_gas_budget(floor - 1, 10), None);
    assert_eq!(forwarded_gas_budget(floor, 10), Some(10));
}
