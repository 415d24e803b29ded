use fraud_detection_engine::wide::{mul_limbs, mul_wide, product_exceeds, Wide};

#[test]
fn limb_product_is_exact_at_the_top() {
    assert_eq!(mul_limbs(0, u64::MAX), 0);
    assert_eq!(mul_limbs(3, 7), 21);
    // (2^64 - 1)^2 = 2^128 - 2^65 + 1
    assert_eq!(mul_limbs(u64::MAX, u64::MAX), u128::MAX - (1u128 << 65) + 2);
}

#[test]
fn wide_product_of_small_factors_has_no_high_limb() {
    assert_eq!(mul_wide(0, u64::MAX), Wide { high: 0, low: 0 });
    assert_eq!(mul_wide(u128::MAX, 0), Wide { high: 0, low: 0 });
    assert_eq!(mul_wide(12, 12), Wide { high: 0, low: 144 });
    assert_eq!(mul_wide(1u128 << 64, 1u64 << 63), Wide { high: 0, low: 1u128 << 127 });
    assert_eq!(mul_wide(u128::MAX, 1), Wide { high: 0, low: u128::MAX });
}

#[test]
fn wide_product_carries_into_the_high_limb() {
    assert_eq!(mul_wide(1u128 << 127, 2), Wide { high: 1, low: 0 });
    assert_eq!(mul_wide(u128::MAX, 2), Wide { high: 1, low: u128::MAX - 1 });
    assert_eq!(mul_wide((1u128 << 127) + 5, 4), Wide { high: 2, low: 20 });
    // (2^128 - 1)(2^64 - 1) = (2^64 - 2) * 2^128 + (2^128 - 2^64 + 1)
    assert_eq!(
        mul_wide(u128::MAX, u64::MAX),
        Wide { high: u64::MAX - 1, low: u128::MAX - (1u128 << 64) + 2 }
    );
    // (2^64 + 1)(2^64 - 1) * 2^64 = (2^128 - 1) * 2^64, by way of its factors
    assert_eq!(
        mul_wide(((1u128 << 64) + 1) << 63, u64::MAX),
        Wide { high: (1u64 << 63) - 1, low: u128::MAX - (1u128 << 63) + 1 }
    );
}

#[test]
fn wide_values_compare_by_the_high_limb_first() {
    let small = Wide { high: 0, low: u128::MAX };
    let large = Wide { high: 1, low: 0 };
    assert!(large.exceeds(small));
    assert!(!small.exceeds(large));
    assert!(!small.exceeds(small));
    assert!(Wide { high: 3, low: 8 }.exceeds(Wide { high: 3, low: 7 }));
}

#[test]
fn products_are_compared_beyond_128_bits() {
    assert!(!product_exceeds(u128::MAX, u64::MAX, u128::MAX, u64::MAX));
    assert!(product_exceeds(u128::MAX, u64::MAX, u128::MAX - 1, u64::MAX));
    assert!(product_exceeds(u128::MAX, u64::MAX, u128::MAX, u64::MAX - 1));
    assert!(!product_exceeds(u128::MAX - 1, u64::MAX, u128::MAX, u64::MAX));
    // 2^127 * 6 = 3 * 2^128 = 2^128 * 3, while each side alone overflows
    assert!(!product_exceeds(1u128 << 127, 6, 3u128 << 126, 4));
    assert!(product_exceeds((1u128 << 127) + 1, 6, 3u128 << 126, 4));
    assert!(product_exceeds(1, 1, 0, u64::MAX));
    assert!(!product_exceeds(0, u64::MAX, 0, 0));
}
