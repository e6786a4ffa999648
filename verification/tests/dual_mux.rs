use sitira::config::FIXED_ONE;
use sitira::dual_mux_4051::{normalize_sample, DualMux, MuxRoute, MUX_CHANNELS};

#[test]
fn channel_nine_selects_pattern_one_through_mux_b() {
    // 9 mod 8 = 1 = 0b001: only the first select bit is driven high, and
    // the conversion must route through multiplexer B, never A.
    assert_eq!(DualMux::select_pattern(9), (true, false, false));
    assert!(matches!(DualMux::route(9), MuxRoute::MuxB));
}

#[test]
fn select_patterns_follow_channel_mod_eight() {
    for ch in 0..MUX_CHANNELS {
        let p = ch % 8;
        assert_eq!(
            DualMux::select_pattern(ch),
            (p % 2 == 1, (p / 2) % 2 == 1, (p / 4) % 2 == 1)
        );
    }
    // Out-of-range channels saturate onto the last slot's pattern.
    assert_eq!(DualMux::select_pattern(99), (true, true, true));
}

#[test]
fn low_channels_route_through_mux_a() {
    for ch in 0..=8 {
        assert!(matches!(DualMux::route(ch), MuxRoute::MuxA));
    }
    for ch in 9..MUX_CHANNELS {
        assert!(matches!(DualMux::route(ch), MuxRoute::MuxB));
    }
}

#[test]
fn a_new_reader_reports_zero_everywhere() {
    let mux = DualMux::new(65_535);
    for ch in 0..MUX_CHANNELS {
        assert_eq!(mux.get_value(ch), 0);
    }
}

#[test]
fn read_value_caches_one_channel_and_leaves_the_rest() {
    let mut mux = DualMux::new(FIXED_ONE as u32);
    mux.read_value(3, 2_500);
    assert_eq!(mux.get_value(3), 2_500);
    for ch in 0..MUX_CHANNELS {
        if ch != 3 {
            assert_eq!(mux.get_value(ch), 0);
        }
    }
    // A later conversion replaces the cache for that channel only.
    mux.read_value(3, 7_500);
    assert_eq!(mux.get_value(3), 7_500);
}

#[test]
fn out_of_range_channels_saturate_onto_the_last_slot() {
    let mut mux = DualMux::new(FIXED_ONE as u32);
    mux.read_value(40, 1_234);
    assert_eq!(mux.get_value(MUX_CHANNELS - 1), 1_234);
    assert_eq!(mux.get_value(77), 1_234);
}

#[test]
fn normalization_spans_the_unit_range() {
    assert_eq!(normalize_sample(0, 65_535), 0);
    assert_eq!(normalize_sample(65_535, 65_535), FIXED_ONE);
    // Half scale of a 16-bit converter: 32768 * 10000 / 65535 = 5000.
    assert_eq!(normalize_sample(32_768, 65_535), 5_000);
    // A reading above full scale saturates.
    let mut mux = DualMux::new(1_000);
    mux.read_value(0, 9_999);
    assert_eq!(mux.get_value(0), FIXED_ONE);
}
