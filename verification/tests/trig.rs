use cookemup::fx::{fx_cos64, fx_round64, fx_sin64, sat_add64, sat_sub64, FULL_TURN, FX_ONE};

#[test]
fn sine_is_exact_on_the_axes() {
    assert_eq!(fx_sin64(0), 0);
    assert_eq!(fx_sin64(90 * FX_ONE), FX_ONE);
    assert_eq!(fx_sin64(180 * FX_ONE), 0);
    assert_eq!(fx_sin64(270 * FX_ONE), -FX_ONE);
    assert_eq!(fx_cos64(0), FX_ONE);
    assert_eq!(fx_cos64(90 * FX_ONE), 0);
    assert_eq!(fx_cos64(180 * FX_ONE), -FX_ONE);
    assert_eq!(fx_cos64(270 * FX_ONE), 0);
}

#[test]
fn sine_of_thirty_degrees_is_exactly_one_half() {
    assert_eq!(fx_sin64(30 * FX_ONE), FX_ONE / 2);
    assert_eq!(fx_sin64(150 * FX_ONE), FX_ONE / 2);
    assert_eq!(fx_sin64(210 * FX_ONE), -FX_ONE / 2);
}

#[test]
fn sine_wraps_whole_turns_and_negative_angles() {
    for a in [0, 12345, 90 * FX_ONE, 200 * FX_ONE] {
        assert_eq!(fx_sin64(a + FULL_TURN), fx_sin64(a));
    }
    assert_eq!(fx_sin64(-90 * FX_ONE), -FX_ONE);
}

#[test]
fn sine_stays_within_one_unit() {
    let mut a: i64 = -FULL_TURN;
    while a <= 2 * FULL_TURN {
        let s = fx_sin64(a);
        assert!(-FX_ONE <= s && s <= FX_ONE);
        a += 7919; // an odd stride to sample off-axis angles
    }
}

#[test]
fn rounding_goes_half_away_from_zero() {
    assert_eq!(fx_round64(0), 0);
    assert_eq!(fx_round64(FX_ONE / 2), 1);
    assert_eq!(fx_round64(FX_ONE / 2 - 1), 0);
    assert_eq!(fx_round64(-(FX_ONE / 2)), -1);
    assert_eq!(fx_round64(-(FX_ONE / 2) + 1), 0);
    assert_eq!(fx_round64(3 * FX_ONE), 3);
}

#[test]
fn saturating_arithmetic_clamps_at_the_i64_bounds() {
    assert_eq!(sat_add64(i64::MAX, 1), i64::MAX);
    assert_eq!(sat_sub64(i64::MIN, 1), i64::MIN);
    assert_eq!(sat_add64(40, 2), 42);
    assert_eq!(sat_sub64(40, 2), 38);
}
