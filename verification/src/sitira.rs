//! The instrument's task logic: the control-rate tick that debounces the
//! digital inputs, drains the analog reader and republishes the parameter
//! set, and the audio-rate handler that records into or granulates out of
//! the sample store.
//!
//! The hardware layer owns the pins, timers, ADCs and codec; each tick it
//! gathers the raw readings into plain values, calls one handler here, and
//! carries the returned decisions (LED levels, output frames) back to the
//! hardware. State shared between the two tasks travels in `SharedState`,
//! which the hardware layer hands to each handler under its own critical
//! section.
use vstd::prelude::*;

use crate::binary_input::BinaryInput;
use crate::binary_input::InputType;
use crate::config::FIXED_ONE;
use crate::dual_mux_4051::normalize_sample;
use crate::dual_mux_4051::spec_normalized;
use crate::dual_mux_4051::DualMux;
use crate::dual_mux_4051::MUX_CHANNELS;
use crate::fixed::scale_fix;
use crate::fixed::scale_fixed;
use crate::granular::clamp_active;
use crate::granular::engine_out;
use crate::granular::play_block;
use crate::granular::spec_relinked;
use crate::granular::spec_with_offset;
use crate::granular::GrainView;
use crate::granular::Grains;
use crate::granular::MAX_GRAINS;
use vstd::arithmetic::div_mod::lemma_div_by_multiple;
use vstd::arithmetic::div_mod::lemma_div_is_ordered;
use vstd::arithmetic::div_mod::lemma_div_pos_is_pos;
use vstd::arithmetic::mul::lemma_mul_is_commutative;
use vstd::arithmetic::mul::lemma_mul_upper_bound;

verus! {

/// Which logical parameter each multiplexed analog channel carries.
#[derive(Clone, Copy, Debug)]
pub enum AdcMuxInputs {
    Offset,
    GrainSize,
    Pitch,
    PitchSpread,
    OffsetSpread,
    GrainSizeSpread,
    Delay,
    ActiveGrains,
    Envelope,
    Velocity,
    DelaySpread,
    WaveSelect,
    VelocitySpread,
}

impl AdcMuxInputs {
    /// The logical channel the parameter is wired to.
    pub open spec fn spec_channel(self) -> int {
        match self {
            AdcMuxInputs::Offset => 0,
            AdcMuxInputs::GrainSize => 1,
            AdcMuxInputs::Pitch => 2,
            AdcMuxInputs::PitchSpread => 4,
            AdcMuxInputs::OffsetSpread => 5,
            AdcMuxInputs::GrainSizeSpread => 7,
            AdcMuxInputs::Delay => 8,
            AdcMuxInputs::ActiveGrains => 9,
            AdcMuxInputs::Envelope => 10,
            AdcMuxInputs::Velocity => 12,
            AdcMuxInputs::DelaySpread => 13,
            AdcMuxInputs::WaveSelect => 14,
            AdcMuxInputs::VelocitySpread => 15,
        }
    }

    /// The logical channel the parameter is wired to.
    pub fn channel(self) -> (c: usize)
        ensures
            c == self.spec_channel(),
            c < MUX_CHANNELS,
    {
        match self {
            AdcMuxInputs::Offset => 0,
            AdcMuxInputs::GrainSize => 1,
            AdcMuxInputs::Pitch => 2,
            AdcMuxInputs::PitchSpread => 4,
            AdcMuxInputs::OffsetSpread => 5,
            AdcMuxInputs::GrainSizeSpread => 7,
            AdcMuxInputs::Delay => 8,
            AdcMuxInputs::ActiveGrains => 9,
            AdcMuxInputs::Envelope => 10,
            AdcMuxInputs::Velocity => 12,
            AdcMuxInputs::DelaySpread => 13,
            AdcMuxInputs::WaveSelect => 14,
            AdcMuxInputs::VelocitySpread => 15,
        }
    }
}

/// The parameter set one control tick publishes and the next audio block
/// consumes. All values are normalized fixed-point (`[0, FIXED_ONE]`);
/// `window_function` is the envelope index the envelope knob selects.
pub struct UserSettings {
    pub master_volume: i64,
    pub active_grains: i64,
    pub offset: i64,
    pub grain_size: i64,
    pub pitch: i64,
    pub delay: i64,
    pub velocity: i64,
    pub sp_offset: i64,
    pub sp_grain_size: i64,
    pub sp_pitch: i64,
    pub sp_delay: i64,
    pub sp_velocity: i64,
    pub window_function: u8,
}

impl UserSettings {
    /// Every published value is normalized.
    pub open spec fn inv(&self) -> bool {
        &&& 0 <= self.master_volume <= FIXED_ONE
        &&& 0 <= self.active_grains <= FIXED_ONE
        &&& 0 <= self.offset <= FIXED_ONE
        &&& 0 <= self.grain_size <= FIXED_ONE
        &&& 0 <= self.pitch <= FIXED_ONE
        &&& 0 <= self.delay <= FIXED_ONE
        &&& 0 <= self.velocity <= FIXED_ONE
        &&& 0 <= self.sp_offset <= FIXED_ONE
        &&& 0 <= self.sp_grain_size <= FIXED_ONE
        &&& 0 <= self.sp_pitch <= FIXED_ONE
        &&& 0 <= self.sp_delay <= FIXED_ONE
        &&& 0 <= self.sp_velocity <= FIXED_ONE
    }

    /// The parameter set the system boots with: full volume, one voice's
    /// worth of grains, everything centred, no spreads.
    pub fn new() -> (s: UserSettings)
        ensures
            s.inv(),
            s.master_volume == FIXED_ONE,
            s.window_function == 2,
    {
        UserSettings {
            master_volume: FIXED_ONE,
            active_grains: 1_000,
            offset: 5_000,
            grain_size: 5_000,
            pitch: 5_000,
            delay: 0,
            velocity: FIXED_ONE,
            sp_offset: 0,
            sp_grain_size: 0,
            sp_pitch: 0,
            sp_delay: 0,
            sp_velocity: 0,
            window_function: 2,
        }
    }
}

/// State the two real-time tasks share, handed to each handler under the
/// hardware layer's critical section.
pub struct SharedState {
    /// Whether the pipeline is capturing into the sample store (else it is
    /// granulating out of it).
    pub is_recording: bool,
    /// How many samples of the store are valid: the write position while
    /// recording, frozen as the playback length at the hand-off.
    pub source_length: usize,
}

/// The LED levels one control tick decides.
pub struct LedStates {
    /// Lit while gate 1 or gate 3 is held.
    pub led1: bool,
    /// Lit while gate 2 or gate 4 is held.
    pub led2: bool,
    /// Lit while the pipeline is recording.
    pub led3: bool,
}

/// The raw hardware readings one control tick consumes: the electrical
/// level of each digital line, one raw conversion per multiplexed channel,
/// and the raw master-volume conversion.
pub struct ControlInputs {
    pub button_high: bool,
    pub gate1_high: bool,
    pub gate2_high: bool,
    pub gate3_high: bool,
    pub gate4_high: bool,
    pub kill_gate_high: bool,
    pub mux_raw: Vec<u32>,
    pub master_volume_raw: u32,
}

impl ControlInputs {
    /// One raw conversion per multiplexed channel.
    pub open spec fn inv(&self) -> bool {
        self.mux_raw@.len() == MUX_CHANNELS
    }
}

/// The control task's own state: the debounced digital inputs, the analog
/// reader's cache, and the master-volume reading with its converter's full
/// scale.
pub struct ControlRate {
    pub button: BinaryInput,
    pub gate1: BinaryInput,
    pub gate2: BinaryInput,
    pub gate3: BinaryInput,
    pub gate4: BinaryInput,
    pub kill_gate: BinaryInput,
    pub muxed_parameters: DualMux,
    pub master_volume_max: u32,
    pub master_volume: i64,
}

impl ControlRate {
    /// Well-formedness: a sane reader and a normalized volume cache.
    pub open spec fn inv(&self) -> bool {
        &&& self.muxed_parameters.inv()
        &&& 1 <= self.master_volume_max
        &&& 0 <= self.master_volume <= FIXED_ONE
    }

    /// Builds the control task's state as the board wires it: the button
    /// is active-high, the gates active-low; `mux_adc_max` and
    /// `volume_adc_max` are the two converters' full-scale raw values.
    pub fn new(mux_adc_max: u32, volume_adc_max: u32) -> (cr: ControlRate)
        ensures
            cr.inv(),
            !cr.button.saved() && !cr.button.edge(),
            !cr.gate1.saved() && !cr.gate2.saved() && !cr.gate3.saved() && !cr.gate4.saved(),
            forall|raw: bool| cr.button.active(raw) == raw,
            forall|raw: bool| cr.gate1.active(raw) == !raw,
            forall|raw: bool| cr.gate2.active(raw) == !raw,
            forall|raw: bool| cr.gate3.active(raw) == !raw,
            forall|raw: bool| cr.gate4.active(raw) == !raw,
            forall|raw: bool| cr.kill_gate.active(raw) == !raw,
    {
        ControlRate {
            button: BinaryInput::new(InputType::ActiveHigh),
            gate1: BinaryInput::new(InputType::ActiveLow),
            gate2: BinaryInput::new(InputType::ActiveLow),
            gate3: BinaryInput::new(InputType::ActiveLow),
            gate4: BinaryInput::new(InputType::ActiveLow),
            kill_gate: BinaryInput::new(InputType::ActiveLow),
            muxed_parameters: DualMux::new(mux_adc_max),
            master_volume_max: if volume_adc_max >= 1 {
                volume_adc_max
            } else {
                1
            },
            master_volume: 0,
        }
    }
}

/// The envelope index the envelope knob selects: the normalized reading
/// spread over the six window kinds.
pub open spec fn spec_window_index(v: int) -> int {
    (v * 6) / (FIXED_ONE as int)
}

/// One control tick.
///
/// Saves every digital input (detecting edges), toggles between recording
/// and playing on a rising button edge (a toggle into recording restarts
/// the write position), decides the LED levels, drains all sixteen
/// multiplexed channels from the raw conversions, refreshes the
/// master-volume reading, and republishes the whole parameter set.
pub fn update_handler(
    cr: &mut ControlRate,
    shared: &mut SharedState,
    settings: &mut UserSettings,
    inputs: &ControlInputs,
) -> (leds: LedStates)
    requires
        old(cr).inv(),
        inputs.inv(),
    ensures
        final(cr).inv(),
        final(settings).inv(),
        // Debounced digital inputs.
        final(cr).button.saved() == old(cr).button.active(inputs.button_high),
        final(cr).button.edge() == (old(cr).button.active(inputs.button_high)
            != old(cr).button.saved() && old(cr).button.active(inputs.button_high)),
        final(cr).gate1.saved() == old(cr).gate1.active(inputs.gate1_high),
        final(cr).gate2.saved() == old(cr).gate2.active(inputs.gate2_high),
        final(cr).gate3.saved() == old(cr).gate3.active(inputs.gate3_high),
        final(cr).gate4.saved() == old(cr).gate4.active(inputs.gate4_high),
        final(cr).kill_gate.saved() == old(cr).kill_gate.active(inputs.kill_gate_high),
        // Record/play state machine.
        final(shared).is_recording == (if final(cr).button.edge() {
            !old(shared).is_recording
        } else {
            old(shared).is_recording
        }),
        final(shared).source_length == (if final(cr).button.edge() && final(shared).is_recording {
            0
        } else {
            old(shared).source_length
        }),
        // LED decisions.
        leds.led1 == (final(cr).gate1.saved() || final(cr).gate3.saved()),
        leds.led2 == (final(cr).gate2.saved() || final(cr).gate4.saved()),
        leds.led3 == final(shared).is_recording,
        // Every multiplexed channel drained this tick.
        final(cr).muxed_parameters.adc_max() == old(cr).muxed_parameters.adc_max(),
        forall|ch: int|
            0 <= ch < MUX_CHANNELS ==> #[trigger] final(cr).muxed_parameters.values()[ch]
                == spec_normalized(inputs.mux_raw@[ch] as int, old(cr).muxed_parameters.adc_max()),
        // Master volume refreshed.
        final(cr).master_volume_max == old(cr).master_volume_max,
        final(cr).master_volume == spec_normalized(
            inputs.master_volume_raw as int,
            old(cr).master_volume_max as int,
        ),
        // The published parameter set.
        final(settings).master_volume == final(cr).master_volume,
        final(settings).active_grains == final(cr).muxed_parameters.values()[AdcMuxInputs::ActiveGrains.spec_channel()],
        final(settings).offset == final(cr).muxed_parameters.values()[AdcMuxInputs::Offset.spec_channel()],
        final(settings).grain_size == final(cr).muxed_parameters.values()[AdcMuxInputs::GrainSize.spec_channel()],
        final(settings).pitch == final(cr).muxed_parameters.values()[AdcMuxInputs::Pitch.spec_channel()],
        final(settings).delay == final(cr).muxed_parameters.values()[AdcMuxInputs::Delay.spec_channel()],
        final(settings).velocity == final(cr).muxed_parameters.values()[AdcMuxInputs::Velocity.spec_channel()],
        final(settings).sp_offset == final(cr).muxed_parameters.values()[AdcMuxInputs::OffsetSpread.spec_channel()],
        final(settings).sp_grain_size == final(cr).muxed_parameters.values()[AdcMuxInputs::GrainSizeSpread.spec_channel()],
        final(settings).sp_pitch == final(cr).muxed_parameters.values()[AdcMuxInputs::PitchSpread.spec_channel()],
        final(settings).sp_delay == final(cr).muxed_parameters.values()[AdcMuxInputs::DelaySpread.spec_channel()],
        final(settings).sp_velocity == final(cr).muxed_parameters.values()[AdcMuxInputs::VelocitySpread.spec_channel()],
        final(settings).window_function == spec_window_index(
            final(cr).muxed_parameters.values()[AdcMuxInputs::Envelope.spec_channel()] as int,
        ),
{
    // Save all binary inputs at the beginning of the tick.
    cr.button.save_state(inputs.button_high);
    cr.gate1.save_state(inputs.gate1_high);
    cr.gate2.save_state(inputs.gate2_high);
    cr.gate3.save_state(inputs.gate3_high);
    cr.gate4.save_state(inputs.gate4_high);
    cr.kill_gate.save_state(inputs.kill_gate_high);

    let led1: bool = cr.gate1.is_saved_state_high() || cr.gate3.is_saved_state_high();
    let led2: bool = cr.gate2.is_saved_state_high() || cr.gate4.is_saved_state_high();

    // A rising button edge toggles between recording and playing; a toggle
    // into recording restarts the write position.
    if cr.button.is_triggered() {
        shared.is_recording = !shared.is_recording;
    }
    let led3: bool;
    if shared.is_recording {
        if cr.button.is_triggered() {
            shared.source_length = 0;
        }
        led3 = true;
    } else {
        led3 = false;
    }

    // Drain every multiplexed channel from this tick's conversions.
    let ghost cr1 = *cr;
    let ghost mux0 = cr.muxed_parameters;
    let mut ch: usize = 0;
    while ch < MUX_CHANNELS
        invariant
            ch <= MUX_CHANNELS,
            inputs.inv(),
            cr.button == cr1.button,
            cr.gate1 == cr1.gate1,
            cr.gate2 == cr1.gate2,
            cr.gate3 == cr1.gate3,
            cr.gate4 == cr1.gate4,
            cr.kill_gate == cr1.kill_gate,
            cr.master_volume_max == cr1.master_volume_max,
            cr.master_volume == cr1.master_volume,
            1 <= cr.master_volume_max,
            cr.muxed_parameters.inv(),
            cr.muxed_parameters.adc_max() == mux0.adc_max(),
            forall|j: int|
                0 <= j < ch ==> #[trigger] cr.muxed_parameters.values()[j] == spec_normalized(
                    inputs.mux_raw@[j] as int,
                    mux0.adc_max(),
                ),
            forall|j: int|
                ch <= j < MUX_CHANNELS ==> #[trigger] cr.muxed_parameters.values()[j]
                    == mux0.values()[j],
        decreases MUX_CHANNELS - ch,
    {
        cr.muxed_parameters.read_value(ch, inputs.mux_raw[ch]);
        ch = ch + 1;
    }

    // Refresh the master volume from its own converter.
    cr.master_volume = normalize_sample(inputs.master_volume_raw, cr.master_volume_max);

    // Republish the parameter set.
    settings.master_volume = cr.master_volume;
    settings.active_grains = cr.muxed_parameters.get_value(AdcMuxInputs::ActiveGrains.channel());
    settings.offset = cr.muxed_parameters.get_value(AdcMuxInputs::Offset.channel());
    settings.grain_size = cr.muxed_parameters.get_value(AdcMuxInputs::GrainSize.channel());
    settings.pitch = cr.muxed_parameters.get_value(AdcMuxInputs::Pitch.channel());
    settings.delay = cr.muxed_parameters.get_value(AdcMuxInputs::Delay.channel());
    settings.velocity = cr.muxed_parameters.get_value(AdcMuxInputs::Velocity.channel());
    settings.sp_offset = cr.muxed_parameters.get_value(AdcMuxInputs::OffsetSpread.channel());
    settings.sp_grain_size = cr.muxed_parameters.get_value(
        AdcMuxInputs::GrainSizeSpread.channel(),
    );
    settings.sp_pitch = cr.muxed_parameters.get_value(AdcMuxInputs::PitchSpread.channel());
    settings.sp_delay = cr.muxed_parameters.get_value(AdcMuxInputs::DelaySpread.channel());
    settings.sp_velocity = cr.muxed_parameters.get_value(AdcMuxInputs::VelocitySpread.channel());
    let envelope: i64 = cr.muxed_parameters.get_value(AdcMuxInputs::Envelope.channel());
    settings.window_function = ((envelope as u64) * 6 / (FIXED_ONE as u64)) as u8;

    LedStates { led1, led2, led3 }
}

/// How many grains a normalized control value asks for: the value spread
/// over `[1, MAX_GRAINS]`.
pub open spec fn spec_grains_requested(v: int) -> int {
    1 + (v * (MAX_GRAINS - 1)) / (FIXED_ONE as int)
}

/// How many grains a normalized control value asks for.
pub fn grains_requested(v: i64) -> (n: usize)
    requires
        0 <= v <= FIXED_ONE,
    ensures
        n == spec_grains_requested(v as int),
        1 <= n <= MAX_GRAINS,
{
    proof {
        let p = (v as int) * (MAX_GRAINS - 1);
        vstd::arithmetic::mul::lemma_mul_nonnegative(v as int, MAX_GRAINS - 1);
        lemma_mul_upper_bound(v as int, FIXED_ONE as int, MAX_GRAINS - 1, MAX_GRAINS - 1);
        assert(0 <= p <= (FIXED_ONE as int) * (MAX_GRAINS - 1));
        lemma_div_pos_is_pos(p, FIXED_ONE as int);
        lemma_div_is_ordered(p, (FIXED_ONE as int) * (MAX_GRAINS - 1), FIXED_ONE as int);
        lemma_mul_is_commutative(FIXED_ONE as int, MAX_GRAINS - 1);
        lemma_div_by_multiple(MAX_GRAINS - 1, FIXED_ONE as int);
    }
    1 + ((v as u64) * ((MAX_GRAINS as u64) - 1) / (FIXED_ONE as u64)) as usize
}

/// The store offset a normalized control value asks for: the value spread
/// over the valid region.
pub open spec fn spec_offset_requested(v: int, len: int) -> int {
    (v * len) / (FIXED_ONE as int)
}

/// The store offset a normalized control value asks for.
pub fn offset_requested(v: i64, len: u32) -> (o: u32)
    requires
        0 <= v <= FIXED_ONE,
    ensures
        o == spec_offset_requested(v as int, len as int),
        o <= len,
{
    proof {
        let p = (v as int) * (len as int);
        lemma_mul_upper_bound(v as int, FIXED_ONE as int, len as int, u32::MAX as int);
        assert(0 <= p) by (nonlinear_arith)
            requires
                0 <= v as int,
                0 <= len as int,
                p == (v as int) * (len as int),
        ;
        assert(p <= (FIXED_ONE as int) * (len as int)) by (nonlinear_arith)
            requires
                0 <= v as int <= FIXED_ONE as int,
                0 <= len as int,
                p == (v as int) * (len as int),
        ;
        lemma_div_pos_is_pos(p, FIXED_ONE as int);
        lemma_div_is_ordered(p, (FIXED_ONE as int) * (len as int), FIXED_ONE as int);
        lemma_mul_is_commutative(FIXED_ONE as int, len as int);
        lemma_div_by_multiple(len as int, FIXED_ONE as int);
    }
    ((v as u64) * (len as u64) / (FIXED_ONE as u64)) as u32
}

/// The pool's views once one audio block has applied the published
/// parameters over a valid region of `len` samples: every grain pointed at
/// the region, and each grain under the requested watermark moved to the
/// requested offset.
pub open spec fn spec_configured(gs: Seq<GrainView>, active_v: int, offset_v: int, len: int) -> Seq<
    GrainView,
> {
    let n = clamp_active(spec_grains_requested(active_v));
    Seq::new(
        gs.len(),
        |i: int|
            {
                let r = spec_relinked(gs[i], len);
                if i < n {
                    spec_with_offset(r, spec_offset_requested(offset_v, len))
                } else {
                    r
                }
            },
    )
}

/// Where this block's recording starts: at the current write position, or
/// back at the region's start when the block would overflow it (the store
/// is used as a ring).
pub open spec fn spec_record_base(source_length: int, block: int, capacity: int) -> int {
    if source_length + block > capacity {
        0
    } else {
        source_length
    }
}

/// One audio block.
///
/// While recording, the incoming frames pass straight through to the
/// output, their left samples are appended to the sample store at the
/// write position (wrapping to the start when the block would overflow the
/// region), and the write position advances by the block length. While
/// playing, the handler republishes the frozen valid region and the
/// published parameters to the grain pool, then asks it for one mixed
/// sample per frame, scales it by the master volume and duplicates it onto
/// both channels; the store is only read, and only inside the valid
/// region.
pub fn audio_handler(
    shared: &mut SharedState,
    grains: &mut Grains,
    settings: &UserSettings,
    sdram: &mut Vec<i64>,
    input: &Vec<(i64, i64)>,
) -> (output: Vec<(i64, i64)>)
    requires
        old(grains).inv(),
        settings.inv(),
        old(shared).source_length <= old(sdram)@.len(),
        old(sdram)@.len() <= u32::MAX,
        input@.len() <= old(sdram)@.len(),
        forall|j: int| 0 <= j < old(sdram)@.len() ==> -FIXED_ONE <= #[trigger] old(sdram)@[j] <= FIXED_ONE,
        forall|j: int|
            0 <= j < input@.len() ==> -FIXED_ONE <= (#[trigger] input@[j]).0 <= FIXED_ONE
                && -FIXED_ONE <= input@[j].1 <= FIXED_ONE,
    ensures
        final(grains).inv(),
        final(shared).is_recording == old(shared).is_recording,
        output@.len() == input@.len(),
        final(sdram)@.len() == old(sdram)@.len(),
        forall|j: int|
            0 <= j < final(sdram)@.len() ==> -FIXED_ONE <= #[trigger] final(sdram)@[j] <= FIXED_ONE,
        forall|i: int|
            0 <= i < output@.len() ==> -FIXED_ONE <= (#[trigger] output@[i]).0 <= FIXED_ONE
                && -FIXED_ONE <= output@[i].1 <= FIXED_ONE,
        // Recording: pass-through monitoring, the block appended at the
        // write position, everything else untouched.
        old(shared).is_recording ==> {
            &&& output@ == input@
            &&& *final(grains) == *old(grains)
            &&& final(shared).source_length == spec_record_base(
                old(shared).source_length as int,
                input@.len() as int,
                old(sdram)@.len() as int,
            ) + input@.len()
            &&& forall|j: int|
                0 <= j < input@.len() ==> final(sdram)@[spec_record_base(
                    old(shared).source_length as int,
                    input@.len() as int,
                    old(sdram)@.len() as int,
                ) + j] == (#[trigger] input@[j]).0
            &&& forall|idx: int|
                0 <= idx < final(sdram)@.len() && !(spec_record_base(
                    old(shared).source_length as int,
                    input@.len() as int,
                    old(sdram)@.len() as int,
                ) <= idx < spec_record_base(
                    old(shared).source_length as int,
                    input@.len() as int,
                    old(sdram)@.len() as int,
                ) + input@.len()) ==> #[trigger] final(sdram)@[idx] == old(sdram)@[idx]
        },
        // Playing: the store untouched, the pool reconfigured from the
        // published parameters, one engine sample per frame, scaled by the
        // master volume and duplicated onto both channels.
        !old(shared).is_recording ==> {
            &&& final(sdram)@ == old(sdram)@
            &&& final(shared).source_length == old(shared).source_length
            &&& final(grains).active_grains == clamp_active(
                spec_grains_requested(settings.active_grains as int),
            )
            &&& final(grains).views() == play_block(
                spec_configured(
                    old(grains).views(),
                    settings.active_grains as int,
                    settings.offset as int,
                    old(shared).source_length as int,
                ),
                clamp_active(spec_grains_requested(settings.active_grains as int)),
                old(sdram)@,
                input@.len() as nat,
            ).1
            &&& forall|i: int|
                0 <= i < input@.len() ==> (#[trigger] output@[i]).0 == scale_fix(
                    play_block(
                        spec_configured(
                            old(grains).views(),
                            settings.active_grains as int,
                            settings.offset as int,
                            old(shared).source_length as int,
                        ),
                        clamp_active(spec_grains_requested(settings.active_grains as int)),
                        old(sdram)@,
                        input@.len() as nat,
                    ).0[i],
                    settings.master_volume as int,
                ) && output@[i].1 == output@[i].0
        },
{
    let block: usize = input.len();
    let capacity: usize = sdram.len();
    if shared.is_recording {
        // Wrap to the region's start when the block would overflow it.
        if block > capacity - shared.source_length {
            shared.source_length = 0;
        }
        let base: usize = shared.source_length;
        let ghost sdram0 = sdram@;
        let mut output: Vec<(i64, i64)> = Vec::new();
        let mut j: usize = 0;
        while j < block
            invariant
                j <= block,
                block == input@.len(),
                base + block <= capacity,
                capacity == sdram@.len(),
                sdram@.len() == sdram0.len(),
                output@.len() == j,
                forall|i: int| 0 <= i < j ==> #[trigger] output@[i] == input@[i],
                forall|i: int| 0 <= i < j ==> sdram@[base + i] == (#[trigger] input@[i]).0,
                forall|idx: int|
                    0 <= idx < sdram@.len() && !(base <= idx < base + j) ==> #[trigger] sdram@[idx]
                        == sdram0[idx],
                forall|idx: int| 0 <= idx < sdram0.len() ==> -FIXED_ONE <= #[trigger] sdram0[idx] <= FIXED_ONE,
                forall|i: int|
                    0 <= i < input@.len() ==> -FIXED_ONE <= (#[trigger] input@[i]).0 <= FIXED_ONE
                        && -FIXED_ONE <= input@[i].1 <= FIXED_ONE,
                forall|idx: int|
                    0 <= idx < sdram@.len() ==> -FIXED_ONE <= #[trigger] sdram@[idx] <= FIXED_ONE,
            decreases block - j,
        {
            let frame: (i64, i64) = input[j];
            sdram.set(base + j, frame.0);
            output.push(frame);
            j = j + 1;
        }
        shared.source_length = base + block;
        proof {
            assert(output@ =~= input@);
        }
        output
    } else {
        // Republish the frozen valid region and the parameters.
        let valid: u32 = shared.source_length as u32;
        grains.set_sample_length(valid);
        let requested: usize = grains_requested(settings.active_grains);
        grains.set_active_grains(requested);
        let off: u32 = offset_requested(settings.offset, valid);
        grains.set_offset(off);
        let ghost conf = spec_configured(
            old(grains).views(),
            settings.active_grains as int,
            settings.offset as int,
            old(shared).source_length as int,
        );
        let ghost n = clamp_active(spec_grains_requested(settings.active_grains as int));
        proof {
            assert(grains.active_grains == n);
            assert(grains.views() =~= conf);
        }
        let ghost store0 = sdram@;
        let mut output: Vec<(i64, i64)> = Vec::new();
        let mut k: usize = 0;
        while k < block
            invariant
                k <= block,
                block == input@.len(),
                grains.inv(),
                grains.active_grains as int == n,
                sdram@ == store0,
                store0.len() <= u32::MAX,
                output@.len() == k,
                conf.len() == MAX_GRAINS,
                forall|j: int| 0 <= j < store0.len() ==> -FIXED_ONE <= #[trigger] store0[j] <= FIXED_ONE,
                forall|i: int|
                    0 <= i < MAX_GRAINS ==> (#[trigger] grains.views()[i]).sample_length
                        <= store0.len(),
                0 <= settings.master_volume <= FIXED_ONE,
                grains.views() == play_block(conf, n, store0, k as nat).1,
                forall|i: int|
                    0 <= i < k ==> (#[trigger] output@[i]).0 == scale_fix(
                        play_block(conf, n, store0, k as nat).0[i],
                        settings.master_volume as int,
                    ) && output@[i].1 == output@[i].0
                        && -FIXED_ONE <= output@[i].0 <= FIXED_ONE,
            decreases block - k,
        {
            let ghost before = grains.views();
            let s: i64 = grains.next_sample(sdram.as_slice());
            let o: i64 = scale_fixed(s, settings.master_volume);
            output.push((o, o));
            proof {
                crate::granular::lemma_play_block_len(conf, n, store0, k as nat);
                crate::granular::lemma_play_block_len(conf, n, store0, (k + 1) as nat);
                assert(grains.views() =~= play_block(conf, n, store0, (k + 1) as nat).1);
                assert(play_block(conf, n, store0, (k + 1) as nat).0 == play_block(
                    conf,
                    n,
                    store0,
                    k as nat,
                ).0.push(engine_out(before, n, store0)));
                assert forall|i: int|
                    0 <= i < MAX_GRAINS implies (#[trigger] grains.views()[i]).sample_length
                    <= store0.len() by {
                    crate::granular::lemma_engine_grain_after_keeps_shape(before, n, i);
                }
            }
            k = k + 1;
        }
        output
    }
}

} // verus!
