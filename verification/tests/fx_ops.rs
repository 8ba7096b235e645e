use grabsim::fx::{fx_mul, fx_div, isqrt, clamp, FX_ONE};

#[test]
fn multiply_whole_numbers_exactly() {
    // 3 * 2 == 6
    assert_eq!(fx_mul(3 * FX_ONE, 2 * FX_ONE), 6 * FX_ONE);
    // 1.5 * 2 == 3
    assert_eq!(fx_mul(98304, 2 * FX_ONE), 3 * FX_ONE);
}

#[test]
fn multiply_truncates_toward_zero() {
    // Three raw ticks squared is far below one tick: truncates to zero,
    // also for the negative product.
    assert_eq!(fx_mul(3, 3), 0);
    assert_eq!(fx_mul(-3, 3), 0);
    // -1.5 * 0.5 == -0.75 exactly.
    assert_eq!(fx_mul(-98304, 32768), -49152);
}

#[test]
fn divide_exact_and_truncating() {
    assert_eq!(fx_div(6 * FX_ONE, 2 * FX_ONE), 3 * FX_ONE);
    assert_eq!(fx_div(FX_ONE, FX_ONE), FX_ONE);
    // 1 / 3 in fixed point truncates.
    assert_eq!(fx_div(FX_ONE, 3 * FX_ONE), 21845);
    // Negative dividend truncates toward zero.
    assert_eq!(fx_div(-FX_ONE, 3 * FX_ONE), -21845);
}

#[test]
fn integer_square_roots() {
    assert_eq!(isqrt(0), 0);
    assert_eq!(isqrt(1), 1);
    assert_eq!(isqrt(3), 1);
    assert_eq!(isqrt(4), 2);
    assert_eq!(isqrt(4294967296), 65536);
    assert_eq!(isqrt(4294967295), 65535);
    assert_eq!(isqrt(u64::MAX), 4294967295);
}

#[test]
fn clamping() {
    assert_eq!(clamp(7, 10), 7);
    assert_eq!(clamp(-7, 10), -7);
    assert_eq!(clamp(17, 10), 10);
    assert_eq!(clamp(-17, 10), -10);
}
