use settlement_core::fees::{fee, fee_standard, DiscountPolicy, BPS_DENOMINATOR};

#[test]
fn standard_fee_exact() {
    assert_eq!(fee_standard(10_000, 50), 50);
    assert_eq!(fee_standard(1_000_000, 5), 500);
    assert_eq!(fee_standard(0, 50), 0);
}

#[test]
fn standard_fee_floors_down() {
    // 3 * 50 / 10_000 rounds down to zero: the protocol under-collects.
    assert_eq!(fee_standard(3, 50), 0);
    assert_eq!(fee_standard(1_999, 50), 9);
}

#[test]
fn ratio_discount_exact() {
    let policy = DiscountPolicy::RatioOff { numerator: 9, denominator: 10 };
    assert_eq!(fee(10_000, 50, policy), 45);
    // 1_999 * 50 / 10_000 = 9, then 9 * 9 / 10 = 8.
    assert_eq!(fee(1_999, 50, policy), 8);
}

#[test]
fn flat_discount_exact() {
    let policy = DiscountPolicy::FlatBpsOff { delta_bps: 5 };
    assert_eq!(fee(10_000, 50, policy), 45);
    assert_eq!(fee(1_000_000, 50, policy), 4_500);
}

#[test]
fn fee_between_zero_and_principal() {
    for &p in &[0u64, 1, 3, 99, 10_000, 123_456_789, u64::MAX] {
        let f = fee_standard(p, BPS_DENOMINATOR);
        assert!(f <= p);
        let f5 = fee_standard(p, 5);
        assert!(f5 <= p);
    }
    // A 100% rate keeps the whole principal, never more.
    assert_eq!(fee_standard(u64::MAX, BPS_DENOMINATOR), u64::MAX);
}

#[test]
fn discounted_fee_never_exceeds_standard() {
    for &p in &[1u64, 999, 10_000, 987_654_321] {
        let standard = fee_standard(p, 50);
        let ratio = fee(p, 50, DiscountPolicy::RatioOff { numerator: 9, denominator: 10 });
        let flat = fee(p, 50, DiscountPolicy::FlatBpsOff { delta_bps: 5 });
        assert!(ratio <= standard);
        assert!(flat <= standard);
    }
}
