use sitira::config::FIXED_ONE;
use sitira::granular::{Grain, Grains, WindowFunction, MAX_GRAINS};
use sitira::sitira::{
    audio_handler, grains_requested, offset_requested, update_handler, AdcMuxInputs,
    ControlInputs, ControlRate, SharedState, UserSettings,
};

fn quiet_inputs() -> ControlInputs {
    ControlInputs {
        button_high: false,
        gate1_high: true,
        gate2_high: true,
        gate3_high: true,
        gate4_high: true,
        kill_gate_high: true,
        mux_raw: vec![0; 16],
        master_volume_raw: 0,
    }
}

#[test]
fn parameter_channels_are_wired_as_labelled() {
    assert_eq!(AdcMuxInputs::Offset.channel(), 0);
    assert_eq!(AdcMuxInputs::GrainSize.channel(), 1);
    assert_eq!(AdcMuxInputs::Pitch.channel(), 2);
    assert_eq!(AdcMuxInputs::PitchSpread.channel(), 4);
    assert_eq!(AdcMuxInputs::OffsetSpread.channel(), 5);
    assert_eq!(AdcMuxInputs::GrainSizeSpread.channel(), 7);
    assert_eq!(AdcMuxInputs::Delay.channel(), 8);
    assert_eq!(AdcMuxInputs::ActiveGrains.channel(), 9);
    assert_eq!(AdcMuxInputs::Envelope.channel(), 10);
    assert_eq!(AdcMuxInputs::Velocity.channel(), 12);
    assert_eq!(AdcMuxInputs::DelaySpread.channel(), 13);
    assert_eq!(AdcMuxInputs::WaveSelect.channel(), 14);
    assert_eq!(AdcMuxInputs::VelocitySpread.channel(), 15);
}

#[test]
fn a_control_tick_publishes_every_parameter() {
    // A converter whose full scale equals FIXED_ONE makes the normalized
    // value the raw reading itself.
    let mut cr = ControlRate::new(FIXED_ONE as u32, FIXED_ONE as u32);
    let mut shared = SharedState { is_recording: false, source_length: 7 };
    let mut settings = UserSettings::new();
    let mut inputs = quiet_inputs();
    for ch in 0..16 {
        inputs.mux_raw[ch] = (ch as u32) * 100;
    }
    inputs.master_volume_raw = 5_000;

    let leds = update_handler(&mut cr, &mut shared, &mut settings, &inputs);

    assert_eq!(settings.master_volume, 5_000);
    assert_eq!(settings.offset, 0);
    assert_eq!(settings.grain_size, 100);
    assert_eq!(settings.pitch, 200);
    assert_eq!(settings.sp_pitch, 400);
    assert_eq!(settings.sp_offset, 500);
    assert_eq!(settings.sp_grain_size, 700);
    assert_eq!(settings.delay, 800);
    assert_eq!(settings.active_grains, 900);
    assert_eq!(settings.velocity, 1_200);
    assert_eq!(settings.sp_delay, 1_300);
    assert_eq!(settings.sp_velocity, 1_500);
    // Envelope channel 10 reads 1000: (1000 * 6) / 10000 = 0.
    assert_eq!(settings.window_function, 0);
    // The gates are wired active-low and all read electrically high.
    assert!(!leds.led1);
    assert!(!leds.led2);
    assert!(!leds.led3);
    assert!(!shared.is_recording);
    assert_eq!(shared.source_length, 7);
}

#[test]
fn the_envelope_knob_selects_the_window_index() {
    let mut cr = ControlRate::new(FIXED_ONE as u32, FIXED_ONE as u32);
    let mut shared = SharedState { is_recording: false, source_length: 0 };
    let mut settings = UserSettings::new();
    let mut inputs = quiet_inputs();
    inputs.mux_raw[10] = 9_999; // almost full scale: index (9999*6)/10000 = 5
    update_handler(&mut cr, &mut shared, &mut settings, &inputs);
    assert_eq!(settings.window_function, 5);
}

#[test]
fn a_button_edge_toggles_recording_and_restarts_the_take() {
    let mut cr = ControlRate::new(FIXED_ONE as u32, FIXED_ONE as u32);
    let mut shared = SharedState { is_recording: false, source_length: 555 };
    let mut settings = UserSettings::new();
    let mut inputs = quiet_inputs();

    // Rising edge: playing -> recording, and the take restarts.
    inputs.button_high = true;
    let leds = update_handler(&mut cr, &mut shared, &mut settings, &inputs);
    assert!(shared.is_recording);
    assert_eq!(shared.source_length, 0);
    assert!(leds.led3);

    // Holding the button is no edge: nothing toggles.
    shared.source_length = 123;
    let leds2 = update_handler(&mut cr, &mut shared, &mut settings, &inputs);
    assert!(shared.is_recording);
    assert_eq!(shared.source_length, 123);
    assert!(leds2.led3);

    // Release, then press again: recording -> playing, take kept.
    inputs.button_high = false;
    update_handler(&mut cr, &mut shared, &mut settings, &inputs);
    inputs.button_high = true;
    let leds3 = update_handler(&mut cr, &mut shared, &mut settings, &inputs);
    assert!(!shared.is_recording);
    assert_eq!(shared.source_length, 123);
    assert!(!leds3.led3);
}

#[test]
fn held_gates_light_their_leds() {
    let mut cr = ControlRate::new(FIXED_ONE as u32, FIXED_ONE as u32);
    let mut shared = SharedState { is_recording: false, source_length: 0 };
    let mut settings = UserSettings::new();
    let mut inputs = quiet_inputs();
    // Gates are active-low: pulling gate 3 and gate 4 down holds them.
    inputs.gate3_high = false;
    inputs.gate4_high = false;
    let leds = update_handler(&mut cr, &mut shared, &mut settings, &inputs);
    assert!(leds.led1);
    assert!(leds.led2);
}

#[test]
fn normalized_controls_map_onto_engine_units() {
    assert_eq!(grains_requested(0), 1);
    assert_eq!(grains_requested(FIXED_ONE), MAX_GRAINS);
    assert_eq!(grains_requested(5_000), 1 + 31);
    assert_eq!(offset_requested(0, 48_000), 0);
    assert_eq!(offset_requested(FIXED_ONE, 48_000), 48_000);
    assert_eq!(offset_requested(5_000, 1_000), 500);
}

#[test]
fn recording_appends_the_block_and_passes_it_through() {
    let mut shared = SharedState { is_recording: true, source_length: 2 };
    let mut grains = Grains::new(1, 100, 0, 8, WindowFunction::Sine);
    let settings = UserSettings::new();
    let mut sdram: Vec<i64> = vec![0; 8];
    let input: Vec<(i64, i64)> = vec![(1_000, -1_000), (2_000, -2_000)];

    let output = audio_handler(&mut shared, &mut grains, &settings, &mut sdram, &input);

    assert_eq!(output, input);
    assert_eq!(shared.source_length, 4);
    assert_eq!(sdram[2], 1_000);
    assert_eq!(sdram[3], 2_000);
    assert_eq!(sdram[0], 0);
    assert!(shared.is_recording);
}

#[test]
fn recording_wraps_when_the_region_would_overflow() {
    let mut shared = SharedState { is_recording: true, source_length: 6 };
    let mut grains = Grains::new(1, 100, 0, 8, WindowFunction::Sine);
    let settings = UserSettings::new();
    let mut sdram: Vec<i64> = vec![7; 8];
    let input: Vec<(i64, i64)> = vec![(1, 0), (2, 0), (3, 0), (4, 0)];

    audio_handler(&mut shared, &mut grains, &settings, &mut sdram, &input);

    // 6 + 4 > 8: the take wraps to the start of the region.
    assert_eq!(shared.source_length, 4);
    assert_eq!(&sdram[0..4], &[1, 2, 3, 4]);
    assert_eq!(&sdram[4..8], &[7, 7, 7, 7]);
}

fn one_small_grain() -> Grains {
    let mut grains = Grains::new(1, 100, 0, 8, WindowFunction::Sine);
    grains.grains[0] = Grain::new(1, 4, WindowFunction::Sine, 4_000);
    grains
}

fn playback_settings() -> UserSettings {
    let mut settings = UserSettings::new();
    settings.active_grains = 0; // one voice
    settings.offset = 0;
    settings
}

#[test]
fn playback_reads_only_the_recorded_region() {
    // Record four frames, switch to playing, and check that whatever sits
    // beyond the frozen length never reaches the output.
    let settings = playback_settings();
    let recorded: Vec<(i64, i64)> = vec![(1_111, 0), (2_222, 0), (3_333, 0), (4_444, 0)];

    let run = |junk: i64| {
        let mut shared = SharedState { is_recording: true, source_length: 0 };
        let mut grains = one_small_grain();
        let mut sdram: Vec<i64> = vec![junk; 8];
        audio_handler(&mut shared, &mut grains, &settings, &mut sdram, &recorded);
        assert_eq!(shared.source_length, 4);
        // The hand-off: the take freezes and playback begins.
        shared.is_recording = false;
        let silence: Vec<(i64, i64)> = vec![(0, 0); 4];
        audio_handler(&mut shared, &mut grains, &settings, &mut sdram, &silence)
    };

    let clean = run(0);
    let noisy = run(9_999);
    let negative = run(-9_999);
    assert_eq!(clean, noisy);
    assert_eq!(clean, negative);
    // sin(0)*1111=0; sin(pi/4)*2222; sin(pi/2)*3333; sin(3pi/4)*4444.
    assert_eq!(clean[0], (0, 0));
    assert_eq!(clean[1], (1_568, 1_568));
    assert_eq!(clean[2], (3_333, 3_333));
    assert_eq!(clean[3], (3_136, 3_136));
}

#[test]
fn playback_of_an_empty_take_is_silence() {
    let settings = playback_settings();
    let mut shared = SharedState { is_recording: false, source_length: 0 };
    let mut grains = one_small_grain();
    let mut sdram: Vec<i64> = vec![5_000; 8];
    let block: Vec<(i64, i64)> = vec![(0, 0); 6];
    let output = audio_handler(&mut shared, &mut grains, &settings, &mut sdram, &block);
    assert_eq!(output, vec![(0, 0); 6]);
    assert_eq!(sdram, vec![5_000; 8]);
}

#[test]
fn master_volume_scales_the_playback() {
    let recorded: Vec<(i64, i64)> = vec![(10_000, 0), (10_000, 0), (10_000, 0), (10_000, 0)];
    let mut settings = playback_settings();

    let mut shared = SharedState { is_recording: true, source_length: 0 };
    let mut grains = one_small_grain();
    let mut sdram: Vec<i64> = vec![0; 8];
    audio_handler(&mut shared, &mut grains, &settings, &mut sdram, &recorded);
    shared.is_recording = false;

    settings.master_volume = 5_000; // half volume
    let silence: Vec<(i64, i64)> = vec![(0, 0); 2];
    let output = audio_handler(&mut shared, &mut grains, &settings, &mut sdram, &silence);
    // Full volume would give 0 then 7058; half gives 0 then 3529.
    assert_eq!(output[0], (0, 0));
    assert_eq!(output[1], (3_529, 3_529));
}
