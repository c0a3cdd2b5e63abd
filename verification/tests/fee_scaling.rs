//! The fee-scaling policy on concrete values.

use rollup_core::decimal::{dec_eq, scale_user_fee_up, UDecimal};

/// `0.005` is below one cent, so it is doubled: `0.01`.
#[test]
fn test_scaling_user_fee_by_two() {
    let provided_fee = UDecimal { mantissa: 5, scale: 3 };
    let provided_fee_scaled_by_two = UDecimal { mantissa: 1, scale: 2 };

    let scaled_fee = scale_user_fee_up(provided_fee);

    assert!(dec_eq(&provided_fee_scaled_by_two, &scaled_fee));
}

/// `0.015` gains one cent (the cent beats 5% here): `0.025`.
#[test]
fn test_scaling_user_fee_by_one_cent() {
    let provided_fee = UDecimal { mantissa: 15, scale: 3 };
    let provided_fee_scaled_by_cent = UDecimal { mantissa: 25, scale: 3 };

    let scaled_fee = scale_user_fee_up(provided_fee);

    assert!(dec_eq(&provided_fee_scaled_by_cent, &scaled_fee));
}

/// `0.30` gains 5% (5% beats the cent here): `0.315`.
#[test]
fn test_scaling_user_fee_by_5_percent() {
    let provided_fee = UDecimal { mantissa: 30, scale: 2 };
    let provided_fee_scaled_by_five_percent = UDecimal { mantissa: 315, scale: 3 };

    let scaled_fee = scale_user_fee_up(provided_fee);

    assert!(dec_eq(&provided_fee_scaled_by_five_percent, &scaled_fee));
}

/// At exactly one cent the doubling branch no longer applies: the larger of
/// `0.0105` and `0.02` is `0.02`.
#[test]
fn test_scaling_user_fee_at_one_cent_boundary() {
    let provided_fee = UDecimal { mantissa: 1, scale: 2 };
    let expected = UDecimal { mantissa: 2, scale: 2 };

    let scaled_fee = scale_user_fee_up(provided_fee);

    assert!(dec_eq(&expected, &scaled_fee));
}

/// Zero scales to zero.
#[test]
fn test_scaling_user_fee_zero() {
    let provided_fee = UDecimal { mantissa: 0, scale: 0 };
    let expected = UDecimal { mantissa: 0, scale: 5 };

    let scaled_fee = scale_user_fee_up(provided_fee);

    assert!(dec_eq(&expected, &scaled_fee));
}

/// Decimal comparison is by value, not by representation.
#[test]
fn test_decimal_value_equality() {
    let a = UDecimal { mantissa: 10, scale: 1 };
    let b = UDecimal { mantissa: 1000, scale: 3 };
    assert!(dec_eq(&a, &b));

    let c = UDecimal { mantissa: 999, scale: 3 };
    assert!(!dec_eq(&a, &c));
}

/// The largest mantissa the policy admits still scales exactly by 5%.
#[test]
fn test_scaling_user_fee_at_the_size_limit() {
    let m = u128::MAX / 105;
    let provided_fee = UDecimal { mantissa: m, scale: 0 };
    let expected = UDecimal { mantissa: m * 105, scale: 2 };

    let scaled_fee = scale_user_fee_up(provided_fee);

    assert!(dec_eq(&expected, &scaled_fee));
}
