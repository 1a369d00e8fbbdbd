use interchain_gas_paymaster::wide::{mul_div, mul_wide, LIMB_RADIX};

#[test]
fn limb_radix_is_two_to_the_64() {
    assert_eq!(LIMB_RADIX, 1u128 << 64);
}

#[test]
fn mul_wide_of_small_numbers() {
    assert_eq!(mul_wide(0, 0), (0, 0, 0, 0));
    assert_eq!(mul_wide(6, 7), (42, 0, 0, 0));
    assert_eq!(mul_wide(1u128 << 64, 1u128 << 64), (0, 0, 1, 0));
    assert_eq!(mul_wide(1u128 << 127, 2), (0, 0, 1, 0));
    assert_eq!(mul_wide(1u128 << 127, 1u128 << 127), (0, 0, 0, 1u64 << 62));
}

#[test]
fn mul_wide_of_the_largest_numbers() {
    // (2^128 - 1)^2 = 2^256 - 2^129 + 1
    assert_eq!(
        mul_wide(u128::MAX, u128::MAX),
        (1, 0, 0xFFFF_FFFF_FFFF_FFFE, 0xFFFF_FFFF_FFFF_FFFF)
    );
    // (2^64 - 1) * (2^64 - 1) = 2^128 - 2^65 + 1
    assert_eq!(mul_wide(u64::MAX as u128, u64::MAX as u128), (1, 0xFFFF_FFFF_FFFF_FFFE, 0, 0));
}

#[test]
fn mul_wide_carries_across_limbs() {
    let a = 0xFFFF_FFFF_FFFF_FFFF_FFFF_FFFF_FFFF_FFFFu128;
    // a * 3 = 2 * 2^128 + (2^128 - 3)
    assert_eq!(mul_wide(a, 3), (0xFFFF_FFFF_FFFF_FFFD, 0xFFFF_FFFF_FFFF_FFFF, 2, 0));
}

#[test]
fn mul_div_matches_plain_arithmetic_when_nothing_overflows() {
    assert_eq!(mul_div(100_000, 10_000_000_000_000_000_000, 10_000_000_000_000_000_000), Some(100_000));
    assert_eq!(mul_div(7, 3, 2), Some(10));
    assert_eq!(mul_div(0, u128::MAX, 1), Some(0));
    assert_eq!(mul_div(u128::MAX, 1, 1), Some(u128::MAX));
    assert_eq!(mul_div(10, 10, 101), Some(0));
}

#[test]
fn mul_div_keeps_the_bits_that_a_narrow_product_would_lose() {
    let scale = 10_000_000_000_000_000_000u64;
    assert_eq!(mul_div(u128::MAX, scale as u128, scale), Some(u128::MAX));
    assert_eq!(mul_div(1u128 << 127, 4, 4), Some(1u128 << 127));
    assert_eq!(mul_div(1u128 << 127, 1u128 << 64, u64::MAX), Some((1u128 << 127) + (1u128 << 63)));
}

#[test]
fn mul_div_reports_a_quotient_beyond_128_bits() {
    assert_eq!(mul_div(u128::MAX, u128::MAX, 1), None);
    assert_eq!(mul_div(1u128 << 127, 4, 2), None);
    assert_eq!(mul_div(u128::MAX, 2, 1), None);
    assert_eq!(mul_div(u128::MAX, u128::MAX, u64::MAX), None);
    assert_eq!(mul_div(1u128 << 127, 4, 3), Some(226854911280625642308916404954512140970));
}
