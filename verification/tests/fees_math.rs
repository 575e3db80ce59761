use token_agent::ErrorCode;
use token_agent::fees::{calculate_fees, charge_split};

#[test]
fn one_percent_of_five_hundred() {
    assert_eq!(calculate_fees(500, 100), Ok(5));
}

#[test]
fn zero_bps_means_zero_fee() {
    assert_eq!(calculate_fees(1000, 0), Ok(0));
    assert_eq!(charge_split(1000, 0), Ok((0, 1000)));
}

#[test]
fn fee_rounds_down() {
    // 1500 * 250 / 10000 = 37.5 -> 37, favouring the payer.
    assert_eq!(charge_split(1500, 250), Ok((37, 1463)));
    // 999 * 10 / 10000 = 0.999 -> 0.
    assert_eq!(charge_split(999, 10), Ok((0, 999)));
}

#[test]
fn fee_plus_net_rebuilds_amount() {
    for &(amount, bps) in &[(1u64, 1u32), (12345, 777), (1_000_000_000, 9999), (u64::MAX / 3, 3)] {
        let (fee, net) = charge_split(amount, bps).unwrap();
        assert_eq!(fee + net, amount);
        assert_eq!(fee as u128, (amount as u128) * (bps as u128) / 10000);
    }
}

#[test]
fn widened_product_overflow_is_reported() {
    // u64::MAX * 3 does not fit in 64 bits.
    assert_eq!(calculate_fees(u64::MAX, 3), Err(ErrorCode::Overflow));
    assert_eq!(charge_split(u64::MAX, 3), Err(ErrorCode::Overflow));
}

#[test]
fn fee_beyond_amount_is_reported() {
    // 20000 bps is 200%: the raw fee exceeds the amount.
    assert_eq!(calculate_fees(100, 20000), Ok(200));
    assert_eq!(charge_split(100, 20000), Err(ErrorCode::Overflow));
}

#[test]
fn full_fee_at_ten_thousand_bps() {
    assert_eq!(charge_split(250, 10000), Ok((250, 0)));
}
