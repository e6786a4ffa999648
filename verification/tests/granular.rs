use sitira::config::FIXED_ONE;
use sitira::granular::{Grain, Grains, WindowFunction, MAX_GRAINS};

#[test]
fn grain_count_is_kept_inside_the_pool() {
    for n in 1..=MAX_GRAINS {
        let g = Grains::new(n, 100, 0, 48_000, WindowFunction::Sine);
        assert_eq!(g.active_grains, n);
    }
    let zero = Grains::new(0, 100, 0, 48_000, WindowFunction::Sine);
    assert_eq!(zero.active_grains, 1);
    let over = Grains::new(MAX_GRAINS + 1, 100, 0, 48_000, WindowFunction::Sine);
    assert_eq!(over.active_grains, MAX_GRAINS);
    let far_over = Grains::new(100_000, 100, 0, 48_000, WindowFunction::Sine);
    assert_eq!(far_over.active_grains, MAX_GRAINS);
}

#[test]
fn spread_is_divided_over_the_active_grains() {
    let g = Grains::new(4, 100, 40, 48_000, WindowFunction::Sine);
    assert_eq!(g.grain_size, 100);
    assert_eq!(g.grain_size_spread, 10);
}

#[test]
fn start_is_idempotent_on_a_grain() {
    // Hamming opens at exactly its 0.08 floor, so the first shaped sample
    // shows where the playhead stands.
    let mut g = Grain::new(1, 4, WindowFunction::Hamming, 4_000);
    g.start_window_funtion();
    g.start_window_funtion();
    assert!(!g.done_with_window_funtion);
    let y = g.update_next_sample(FIXED_ONE);
    assert_eq!(y, 800); // playhead was 0 after the double start
}

#[test]
fn start_is_idempotent_on_the_pool() {
    let store: [i64; 4] = [FIXED_ONE, FIXED_ONE, FIXED_ONE, FIXED_ONE];
    let mut a = Grains::new(1, 1, 0, 4, WindowFunction::Hamming);
    a.grains[0] = Grain::new(1, 4, WindowFunction::Hamming, 4_000);
    a.set_offset(0);
    let mut b = Grains::new(1, 1, 0, 4, WindowFunction::Hamming);
    b.grains[0] = Grain::new(1, 4, WindowFunction::Hamming, 4_000);
    b.set_offset(0);

    a.start_window_funtion();
    b.start_window_funtion();
    b.start_window_funtion();
    assert!(!a.grains[0].done_with_window_funtion);
    assert!(!b.grains[0].done_with_window_funtion);
    assert_eq!(a.next_sample(&store), b.next_sample(&store));
}

#[test]
fn set_offset_returns_the_previous_value() {
    // 480 samples over a 48000-sample region: offsets up to 47520 stick.
    let mut g = Grain::new(10, 48_000, WindowFunction::Sine, 48_000);
    g.set_offset(123);
    for y in [0u32, 47_520, 99_999, 7] {
        let prev = g.set_offset(y);
        if y == 0 {
            assert_eq!(prev, 123);
        }
    }
    // Round trip: set_offset(x) then set_offset(y) returns x.
    for x in [0u32, 1, 4_000, 47_520] {
        g.set_offset(x);
        assert_eq!(g.set_offset(99), x);
    }
}

#[test]
fn set_offset_saturates_at_the_region_edge() {
    let mut g = Grain::new(10, 48_000, WindowFunction::Sine, 48_000);
    g.set_offset(999_999);
    // The next call returns what was actually installed.
    assert_eq!(g.set_offset(0), 47_520);
}

#[test]
fn set_gain_saturates_into_the_unit_range() {
    let mut g = Grain::new(10, 48_000, WindowFunction::Sine, 48_000);
    g.set_gain(-5);
    g.set_gain(FIXED_ONE + 1);
    g.set_gain(5_000);
}

#[test]
fn advance_position_never_leaves_the_region() {
    let sample_length: u32 = 48_000;
    let mut g = Grain::new(10, sample_length, WindowFunction::Sine, 48_000);
    g.set_offset(47_000);
    g.start_window_funtion();
    for _ in 0..2_000 {
        let p = g.update_sample_position();
        assert!(p < sample_length as usize);
    }
    // The same holds from the largest constructor-valid offset.
    g.set_offset(u32::MAX);
    g.start_window_funtion();
    for _ in 0..2_000 {
        let p = g.update_sample_position();
        assert!(p < sample_length as usize);
    }
}

#[test]
fn four_sample_sine_grain_plays_the_documented_sequence() {
    // Store [0.0, 1.0, 0.0, -1.0], one grain, size 4, Sine, offset 0.
    let store: [i64; 4] = [0, FIXED_ONE, 0, -FIXED_ONE];
    let mut gs = Grains::new(1, 1, 0, 4, WindowFunction::Sine);
    gs.grains[0] = Grain::new(1, 4, WindowFunction::Sine, 4_000);
    gs.set_offset(0);
    gs.start_window_funtion();

    // sin(0) * 0.0, sin(pi/4) * 1.0, sin(pi/2) * 0.0, sin(3 pi/4) * -1.0.
    assert_eq!(gs.next_sample(&store), 0);
    let second = gs.next_sample(&store);
    assert_eq!(second, 7_058);
    assert!((second as f64 / FIXED_ONE as f64 - std::f64::consts::FRAC_PI_4.sin()).abs() < 0.005);
    assert_eq!(gs.next_sample(&store), 0);
    let fourth = gs.next_sample(&store);
    assert_eq!(fourth, -7_058);
    assert!(
        (fourth as f64 / FIXED_ONE as f64 + (3.0 * std::f64::consts::FRAC_PI_4).sin()).abs()
            < 0.005
    );
    // The window completed on the fourth call; the fifth follows a reset.
    assert!(gs.grains[0].done_with_window_funtion);
    assert_eq!(gs.next_sample(&store), 0);
    assert_eq!(gs.next_sample(&store), 7_058);
}

#[test]
fn raising_the_watermark_clamps_to_the_pool() {
    let mut gs = Grains::new(2, 100, 0, 48_000, WindowFunction::Sine);
    gs.set_active_grains(MAX_GRAINS + 36);
    assert_eq!(gs.active_grains, MAX_GRAINS);
    gs.set_active_grains(0);
    assert_eq!(gs.active_grains, 1);
}

#[test]
fn lowering_the_watermark_silences_grains_on_the_next_call() {
    // Two size-4 grains over a constant store; the Hamming grain alone
    // yields 5382 on its second sample, the Sine grain 7058, the
    // equal-weight pair (5382 + 7058) / 2 = 6220.
    let store: [i64; 8] = [FIXED_ONE; 8];
    let build = || {
        let mut gs = Grains::new(2, 1, 0, 8, WindowFunction::Hamming);
        gs.grains[0] = Grain::new(1, 8, WindowFunction::Hamming, 4_000);
        gs.grains[1] = Grain::new(1, 8, WindowFunction::Sine, 4_000);
        gs.set_offset(0);
        gs.start_window_funtion();
        gs
    };

    let mut pair = build();
    assert_eq!(pair.next_sample(&store), (800 + 0) / 2);
    assert_eq!(pair.next_sample(&store), (5_382 + 7_058) / 2);

    let mut lowered = build();
    assert_eq!(lowered.next_sample(&store), (800 + 0) / 2);
    lowered.set_active_grains(1);
    // The very next call no longer hears the Sine grain.
    assert_eq!(lowered.next_sample(&store), 5_382);
}

#[test]
fn a_grain_longer_than_the_region_stays_silent() {
    // 100 ms at 48 kHz is 4800 samples; a 4-sample store cannot hold it.
    let store: [i64; 4] = [FIXED_ONE; 4];
    let mut gs = Grains::new(1, 100, 0, 4, WindowFunction::Sine);
    gs.start_window_funtion();
    for _ in 0..10 {
        assert_eq!(gs.next_sample(&store), 0);
    }
}
