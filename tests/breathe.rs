use just_breathe::breathe::{BreatheState, CYCLE, HUE_BLUE, HUE_RED, SCALE_MAX, SCALE_MIN};
use just_breathe::easing::{ease_in_out_cubic, lerp, EASE_DEN, PERIOD};

#[test]
fn advance_keeps_timer_inside_phase() {
    let dts: [u64; 9] = [
        0,
        1,
        PERIOD - 1,
        PERIOD,
        PERIOD + 1,
        3 * PERIOD + 7,
        CYCLE,
        9 * PERIOD + 123,
        u64::MAX,
    ];
    for start in [
        BreatheState::In(0),
        BreatheState::HoldIn(PERIOD - 1),
        BreatheState::Out(1_234_567),
        BreatheState::HoldOut(3_000_000_000),
    ] {
        for dt in dts {
            let mut s = start;
            s.advance(dt);
            assert!(s.elapsed() < PERIOD);
        }
    }
}

#[test]
fn advance_carries_excess_into_next_phase() {
    let mut s = BreatheState::In(3_500_000_000);
    s.advance(1_000_000_000);
    assert_eq!(s, BreatheState::HoldIn(500_000_000));
    s.advance(3_500_000_000);
    assert_eq!(s, BreatheState::Out(0));
    s.advance(4_000_000_001);
    assert_eq!(s, BreatheState::HoldOut(1));
    s.advance(3_999_999_999);
    assert_eq!(s, BreatheState::In(0));
}

#[test]
fn advance_over_several_phases_at_once() {
    let mut s = BreatheState::In(0);
    s.advance(9_500_000_000);
    assert_eq!(s, BreatheState::Out(1_500_000_000));
    let mut t = BreatheState::HoldIn(2_000_000_000);
    t.advance(CYCLE * 3 + PERIOD * 3 + 5);
    assert_eq!(t, BreatheState::In(2_000_000_005));
}

#[test]
fn full_breath_returns_to_start() {
    let mut s = BreatheState::new();
    s.advance(CYCLE);
    assert_eq!(s, BreatheState::In(0));

    let mut s = BreatheState::new();
    for _ in 0..960 {
        s.advance(16_666_666);
    }
    s.advance(CYCLE - 960 * 16_666_666);
    assert_eq!(s, BreatheState::In(0));

    let mut s = BreatheState::Out(777);
    for dt in [1_000_000_000u64, 6_000_000_000, 0, 9_000_000_000] {
        s.advance(dt);
    }
    assert_eq!(s, BreatheState::Out(777));
}

#[test]
fn ease_exact_values() {
    assert_eq!(ease_in_out_cubic(0), 0);
    assert_eq!(ease_in_out_cubic(1_000_000_000), 4_000_000_000_000_000_000_000_000_000);
    assert_eq!(ease_in_out_cubic(PERIOD / 2), EASE_DEN / 2);
    assert_eq!(
        ease_in_out_cubic(3_000_000_000),
        EASE_DEN - 4_000_000_000_000_000_000_000_000_000
    );
    assert_eq!(ease_in_out_cubic(PERIOD), EASE_DEN);
}

#[test]
fn lerp_exact_values() {
    assert_eq!(lerp(0, 10, 20), 10);
    assert_eq!(lerp(EASE_DEN, 10, 20), 20);
    assert_eq!(lerp(EASE_DEN / 2, 0, 1000), 500);
    assert_eq!(lerp(EASE_DEN / 4, 1000, 0), 750);
    assert_eq!(lerp(EASE_DEN / 2, 0, 1), 1);
    assert_eq!(lerp(1, 0, 1), 0);
}

#[test]
fn scale_boundary_values() {
    assert_eq!(BreatheState::In(0).scale(), SCALE_MIN);
    assert_eq!(BreatheState::HoldIn(0).scale(), SCALE_MAX);
    assert_eq!(BreatheState::HoldIn(2_718_281_828).scale(), SCALE_MAX);
    assert_eq!(BreatheState::Out(0).scale(), SCALE_MAX);
    assert_eq!(BreatheState::HoldOut(0).scale(), SCALE_MIN);
    assert_eq!(BreatheState::HoldOut(PERIOD - 1).scale(), SCALE_MIN);
    assert_eq!(SCALE_MIN, 250_000);
    assert_eq!(SCALE_MAX, 1_000_000);
}

#[test]
fn scale_exact_values() {
    assert_eq!(BreatheState::In(1_000_000_000).scale(), 296_875);
    assert_eq!(BreatheState::In(2_000_000_000).scale(), 625_000);
    assert_eq!(BreatheState::In(3_000_000_000).scale(), 953_125);
    assert_eq!(BreatheState::Out(1_000_000_000).scale(), 953_125);
    assert_eq!(BreatheState::Out(2_000_000_000).scale(), 625_000);
}

#[test]
fn scale_continuous_at_phase_ends() {
    assert_eq!(BreatheState::In(PERIOD - 1).scale(), BreatheState::HoldIn(0).scale());
    assert_eq!(BreatheState::HoldIn(PERIOD - 1).scale(), BreatheState::Out(0).scale());
    assert_eq!(BreatheState::Out(PERIOD - 1).scale(), BreatheState::HoldOut(0).scale());
    assert_eq!(BreatheState::HoldOut(PERIOD - 1).scale(), BreatheState::In(0).scale());
    let mut s = BreatheState::In(PERIOD - 1);
    let before = s.scale();
    s.advance(1);
    assert_eq!(s, BreatheState::HoldIn(0));
    assert_eq!(s.scale(), before);
    assert_eq!(before, 1_000_000);
}

#[test]
fn scale_monotone_while_breathing() {
    let mut prev_in = 0;
    let mut prev_out = u64::MAX;
    let mut t: u64 = 0;
    while t < PERIOD {
        let up = BreatheState::In(t).scale();
        let down = BreatheState::Out(t).scale();
        assert!(prev_in <= up);
        assert!(down <= prev_out);
        assert!(SCALE_MIN <= up && up <= SCALE_MAX);
        prev_in = up;
        prev_out = down;
        t += 3_999_999;
    }
}

#[test]
fn hue_values() {
    assert_eq!(BreatheState::In(123).hue(), HUE_BLUE);
    assert_eq!(BreatheState::Out(PERIOD - 1).hue(), HUE_RED);
    assert_eq!(BreatheState::HoldIn(0).hue(), 260_000_000);
    assert_eq!(BreatheState::HoldIn(2_000_000_000).hue(), 295_000_000);
    assert_eq!(BreatheState::HoldOut(2_000_000_000).hue(), 295_000_000);
    assert_eq!(BreatheState::HoldOut(0).hue(), 330_000_000);
}

#[test]
fn hue_continuous_at_phase_ends() {
    assert_eq!(BreatheState::HoldIn(PERIOD - 1).hue(), BreatheState::Out(0).hue());
    assert_eq!(BreatheState::HoldOut(PERIOD - 1).hue(), BreatheState::In(0).hue());
    assert_eq!(BreatheState::In(PERIOD - 1).hue(), BreatheState::HoldIn(0).hue());
    assert_eq!(BreatheState::Out(PERIOD - 1).hue(), BreatheState::HoldOut(0).hue());
}

#[test]
fn derived_values_stable_between_advances() {
    let s = BreatheState::Out(1_111_111_111);
    assert_eq!(s.scale(), s.scale());
    assert_eq!(s.hue(), s.hue());
    let h = BreatheState::HoldOut(3_141_592_653);
    assert_eq!(h.hue(), h.hue());
}
