//! The granular-synthesis engine: one `Grain` is a short windowed slice of
//! the sample store; `Grains` is the fixed-capacity pool that mixes them.
//!
//! Every grain is pre-allocated when the pool is built and is only ever
//! rearmed in place, so producing a sample never allocates. Out-of-range
//! configuration saturates silently: these functions run in interrupt
//! context and have no error path.
use vstd::prelude::*;

use crate::config::AUDIO_SAMPLE_RATE;
use crate::config::FIXED_ONE;
use crate::fixed::div_by_count;
use crate::fixed::div_trunc;
use crate::fixed::lemma_div_trunc_bound;
use crate::fixed::scale_fix;
use crate::fixed::scale_fixed;
use crate::window::hamming_fix;
use crate::window::hamming_window;
use crate::window::hann_fix;
use crate::window::hann_window;
use crate::window::sine_fix;
use crate::window::sine_window;
use crate::window::MAX_GRAIN_SAMPLES;
use vstd::arithmetic::mul::lemma_mul_upper_bound;
use vstd::slice::slice_index_get;

verus! {

/// Capacity of the grain pool; the watermark `active_grains` never exceeds
/// it.
pub const MAX_GRAINS: usize = 64;

/// Shortest grain a caller can ask for, in milliseconds.
pub const MIN_GRAIN_MS: u32 = 1;

/// Longest grain a caller can ask for, in milliseconds; keeps the derived
/// size inside `MAX_GRAIN_SAMPLES` at any supported sample rate.
pub const MAX_GRAIN_MS: u32 = 10_000;

/// How far the read position moves per produced sample.
pub const SCAN_HOP: u32 = 1;

/// Where a fresh grain starts reading, before the first `set_offset`.
pub const DEFAULT_OFFSET: u32 = 1_000;

/// Gain a fresh grain carries, before the first `set_gain`: 0.7.
pub const DEFAULT_GAIN: i64 = 7_000;

/// The envelope shapes a grain can be built with. `Trapezodial`, `Gaussian`
/// and `Tukey` are declared but still produce a silent (all-zero) envelope:
/// a reserved placeholder, not a fault.
#[derive(Clone, Copy, Debug)]
pub enum WindowFunction {
    Trapezodial,
    Gaussian,
    Sine,
    Hann,
    Hamming,
    Tukey,
}

/// The envelope of window `w` at playhead `t` of a grain of size `l`,
/// scaled by `FIXED_ONE`; zero for the reserved shapes.
pub open spec fn window_fix(w: WindowFunction, t: int, l: int) -> int {
    match w {
        WindowFunction::Sine => sine_fix(t, l),
        WindowFunction::Hann => hann_fix(t, l),
        WindowFunction::Hamming => hamming_fix(t, l),
        _ => 0,
    }
}

/// Mathematical state of one grain.
pub struct GrainView {
    /// First sample-store index the grain reads.
    pub offset: int,
    /// How far past `offset` the next read happens.
    pub current_position: int,
    /// Per-grain gain in `[0, FIXED_ONE]`.
    pub gain: int,
    /// Length of the grain, in samples.
    pub size: int,
    /// Phase through the window envelope.
    pub playhead: int,
    /// Length of the valid region of the sample store.
    pub sample_length: int,
    /// Whether the window has completed and the grain awaits a restart.
    pub done: bool,
    /// The envelope shape.
    pub window: WindowFunction,
}

/// The largest starting offset that keeps a whole grain of `size` samples
/// inside the valid region; zero when the grain does not fit at all.
pub open spec fn grain_max_offset(size: int, sample_length: int) -> int {
    if size <= sample_length {
        sample_length - size
    } else {
        0
    }
}

impl GrainView {
    /// Well-formedness: the size is in range, both counters stay inside the
    /// grain, the grain fits the valid region wherever it starts, and the
    /// gain is a normalized value.
    pub open spec fn inv(self) -> bool {
        &&& 1 <= self.size <= MAX_GRAIN_SAMPLES
        &&& 0 <= self.playhead < self.size
        &&& 0 <= self.current_position < self.size
        &&& 0 <= self.offset <= grain_max_offset(self.size, self.sample_length)
        &&& 0 <= self.sample_length <= u32::MAX
        &&& 0 <= self.gain <= FIXED_ONE
    }
}

/// `ms` clamped onto the supported grain length range.
pub open spec fn spec_clamp_ms(ms: int) -> int {
    if ms < MIN_GRAIN_MS {
        MIN_GRAIN_MS as int
    } else if ms > MAX_GRAIN_MS {
        MAX_GRAIN_MS as int
    } else {
        ms
    }
}

/// The size in samples derived from a grain length in milliseconds:
/// `rate * ms / 1000`, kept inside `[1, MAX_GRAIN_SAMPLES]`.
pub open spec fn spec_grain_size(ms: int, rate: int) -> int {
    let raw = (rate * spec_clamp_ms(ms)) / 1000;
    if raw < 1 {
        1
    } else if raw > MAX_GRAIN_SAMPLES {
        MAX_GRAIN_SAMPLES as int
    } else {
        raw
    }
}

/// The state `Grain::new(ms, sample_length, w, rate)` builds.
pub open spec fn spec_new_grain(ms: int, sample_length: int, w: WindowFunction, rate: int) -> GrainView {
    let size = spec_grain_size(ms, rate);
    let max_offset = grain_max_offset(size, sample_length);
    GrainView {
        offset: if DEFAULT_OFFSET <= max_offset {
            DEFAULT_OFFSET as int
        } else {
            max_offset
        },
        current_position: 0,
        gain: DEFAULT_GAIN as int,
        size: size,
        playhead: 0,
        sample_length: sample_length,
        done: true,
        window: w,
    }
}

/// The read position after one `update_sample_position`: forward by the
/// hop, wrapped to the grain's start (retiring the grain) when it would
/// leave the grain.
pub open spec fn spec_advanced(g: GrainView) -> GrainView {
    let p = g.current_position + (SCAN_HOP as int);
    if p >= g.size {
        GrainView { current_position: 0, done: true, ..g }
    } else {
        GrainView { current_position: p, ..g }
    }
}

/// The playhead after one `update_next_sample`: frozen once the grain is
/// done, otherwise forward by one, wrapped to zero (retiring the grain)
/// when it reaches the grain size.
pub open spec fn spec_windowed(g: GrainView) -> GrainView {
    if g.done {
        g
    } else {
        let p = g.playhead + 1;
        if p >= g.size {
            GrainView { playhead: 0, done: true, ..g }
        } else {
            GrainView { playhead: p, ..g }
        }
    }
}

/// The state after `start_window_funtion`: both counters at the grain's
/// start and the done flag cleared.
pub open spec fn spec_started(g: GrainView) -> GrainView {
    GrainView { current_position: 0, playhead: 0, done: false, ..g }
}

/// The state after `set_gain(v)`.
pub open spec fn spec_with_gain(g: GrainView, v: int) -> GrainView {
    GrainView { gain: crate::fixed::clamp_fix(v), ..g }
}

/// The state after `set_offset(o)`: the offset saturates at the largest
/// value that keeps the grain inside the valid region.
pub open spec fn spec_with_offset(g: GrainView, o: int) -> GrainView {
    GrainView {
        offset: if o > grain_max_offset(g.size, g.sample_length) {
            grain_max_offset(g.size, g.sample_length)
        } else {
            o
        },
        ..g
    }
}

/// `set_offset` is an undo-style round trip: after `set_offset(x)` with
/// `x` inside the valid range, a second `set_offset(y)` returns `x`, for
/// any `y`. (The second call returns the offset the first call installed,
/// and an in-range `x` is installed unclamped.)
pub proof fn lemma_set_offset_round_trip(g: GrainView, x: int, y: int)
    requires
        0 <= x <= grain_max_offset(g.size, g.sample_length),
    ensures
        spec_with_offset(g, x).offset == x,
        spec_with_offset(spec_with_offset(g, x), y).offset == (if y
            > grain_max_offset(g.size, g.sample_length) {
            grain_max_offset(g.size, g.sample_length)
        } else {
            y
        }),
{
}

/// Arming a grain twice is the same as arming it once: `start` is
/// idempotent, and in particular leaves the playhead at zero and the done
/// flag cleared both times.
pub proof fn lemma_start_idempotent(g: GrainView)
    ensures
        spec_started(spec_started(g)) == spec_started(g),
        spec_started(g).playhead == 0,
        !spec_started(g).done,
{
}

/// One playback unit: a windowed slice of the sample store.
#[derive(Clone, Copy)]
pub struct Grain {
    offset: u32,
    current_position: u32,
    gain: i64,
    size: u32,
    playhead: u32,
    sample_length: u32,
    pub done_with_window_funtion: bool,
    window: WindowFunction,
}

impl View for Grain {
    type V = GrainView;

    closed spec fn view(&self) -> GrainView {
        GrainView {
            offset: self.offset as int,
            current_position: self.current_position as int,
            gain: self.gain as int,
            size: self.size as int,
            playhead: self.playhead as int,
            sample_length: self.sample_length as int,
            done: self.done_with_window_funtion,
            window: self.window,
        }
    }
}

impl Grain {
    /// A fresh, retired grain of roughly `grain_length` milliseconds over a
    /// valid region of `sample_length` samples. The length saturates into
    /// the supported range rather than failing.
    pub fn new(grain_length: u32, sample_length: u32, window_function: WindowFunction, sample_rate: u32) -> (g: Grain)
        ensures
            g@ == spec_new_grain(grain_length as int, sample_length as int, window_function, sample_rate as int),
            g@.inv(),
    {
        let ms: u32 = if grain_length < MIN_GRAIN_MS {
            MIN_GRAIN_MS
        } else if grain_length > MAX_GRAIN_MS {
            MAX_GRAIN_MS
        } else {
            grain_length
        };
        proof {
            lemma_mul_upper_bound(sample_rate as int, u32::MAX as int, ms as int, MAX_GRAIN_MS as int);
        }
        let raw: u64 = (sample_rate as u64) * (ms as u64) / 1000;
        let size: u32 = if raw < 1 {
            1
        } else if raw > (MAX_GRAIN_SAMPLES as u64) {
            MAX_GRAIN_SAMPLES
        } else {
            raw as u32
        };
        let max_offset: u32 = if size <= sample_length {
            sample_length - size
        } else {
            0
        };
        let offset: u32 = if DEFAULT_OFFSET <= max_offset {
            DEFAULT_OFFSET
        } else {
            max_offset
        };
        Grain {
            offset,
            current_position: 0,
            gain: DEFAULT_GAIN,
            size,
            playhead: 0,
            sample_length,
            done_with_window_funtion: true,
            window: window_function,
        }
    }

    /// Returns the index the grain reads now and moves the read position
    /// forward, retiring the grain when the next read would leave it. The
    /// returned index never reaches the valid region's length.
    pub fn update_sample_position(&mut self) -> (position: usize)
        requires
            old(self)@.inv(),
        ensures
            final(self)@ == spec_advanced(old(self)@),
            final(self)@.inv(),
            position == old(self)@.offset + old(self)@.current_position,
            old(self)@.size <= old(self)@.sample_length ==> position < old(self)@.sample_length,
    {
        let position: usize = (self.offset as usize) + (self.current_position as usize);
        self.current_position = self.current_position + SCAN_HOP;
        if self.current_position >= self.size {
            self.current_position = 0;
            self.done_with_window_funtion = true;
        }
        position
    }

    /// Applies the window envelope at the current playhead to `sample` and
    /// advances the playhead.
    pub fn update_next_sample(&mut self, sample: i64) -> (out: i64)
        requires
            old(self)@.inv(),
            -FIXED_ONE <= sample <= FIXED_ONE,
        ensures
            final(self)@ == spec_windowed(old(self)@),
            final(self)@.inv(),
            out == scale_fix(sample as int, window_fix(old(self)@.window, old(self)@.playhead, old(self)@.size)),
            -FIXED_ONE <= out <= FIXED_ONE,
    {
        let w: i64 = self.update_window_function();
        scale_fixed(sample, w)
    }

    /// Sets the per-grain gain, saturating onto `[0, FIXED_ONE]`.
    pub fn set_gain(&mut self, value: i64)
        requires
            old(self)@.inv(),
        ensures
            final(self)@ == spec_with_gain(old(self)@, value as int),
            final(self)@.inv(),
    {
        let mut v: i64 = value;
        if v > FIXED_ONE {
            v = FIXED_ONE;
        }
        if v < 0 {
            v = 0;
        }
        self.gain = v;
    }

    /// Moves the grain's read window to `offset`, saturating so the grain
    /// stays inside the valid region, and returns the previous offset.
    pub fn set_offset(&mut self, offset: u32) -> (prev: u32)
        requires
            old(self)@.inv(),
        ensures
            final(self)@ == spec_with_offset(old(self)@, offset as int),
            final(self)@.inv(),
            prev == old(self)@.offset,
    {
        let max_offset: u32 = if self.size <= self.sample_length {
            self.sample_length - self.size
        } else {
            0
        };
        let clamped: u32 = if offset > max_offset {
            max_offset
        } else {
            offset
        };
        let prev: u32 = self.offset;
        self.offset = clamped;
        prev
    }

    /// Arms the grain: counters to the start, done flag cleared.
    /// Idempotent.
    pub fn start_window_funtion(&mut self)
        requires
            old(self)@.inv(),
        ensures
            final(self)@ == spec_started(old(self)@),
            final(self)@.inv(),
    {
        self.done_with_window_funtion = false;
        self.current_position = 0;
        self.playhead = 0;
    }

    /// Evaluates the window envelope at the playhead, then advances the
    /// playhead unless the grain is retired.
    fn update_window_function(&mut self) -> (w: i64)
        requires
            old(self)@.inv(),
        ensures
            final(self)@ == spec_windowed(old(self)@),
            final(self)@.inv(),
            w == window_fix(old(self)@.window, old(self)@.playhead, old(self)@.size),
            0 <= w <= FIXED_ONE,
    {
        let w: i64 = match self.window {
            WindowFunction::Sine => sine_window(self.playhead, self.size),
            WindowFunction::Hann => hann_window(self.playhead, self.size),
            WindowFunction::Hamming => hamming_window(self.playhead, self.size),
            _ => 0,
        };
        if !self.done_with_window_funtion {
            self.playhead = self.playhead + 1;
            if self.playhead >= self.size {
                self.playhead = 0;
                self.done_with_window_funtion = true;
            }
        }
        w
    }

    /// Points the grain at a valid region of `len` samples, pulling the
    /// offset back so the grain stays inside it. Used at the record-to-play
    /// hand-off, when the engine's sample source is republished.
    fn relink(&mut self, len: u32)
        requires
            old(self)@.inv(),
        ensures
            final(self)@ == spec_relinked(old(self)@, len as int),
            final(self)@.inv(),
    {
        self.sample_length = len;
        let max_offset: u32 = if self.size <= len {
            len - self.size
        } else {
            0
        };
        if self.offset > max_offset {
            self.offset = max_offset;
        }
    }
}

/// The state after `relink(len)`: the valid region's length replaced and
/// the offset saturated into it.
pub open spec fn spec_relinked(g: GrainView, len: int) -> GrainView {
    GrainView {
        sample_length: len,
        offset: if g.offset > grain_max_offset(g.size, len) {
            grain_max_offset(g.size, len)
        } else {
            g.offset
        },
        ..g
    }
}

/// The watermark a requested grain count is clamped to: at least one voice,
/// at most the pool's capacity.
pub open spec fn clamp_active(n: int) -> int {
    if n == 0 {
        1
    } else if n > MAX_GRAINS {
        MAX_GRAINS as int
    } else {
        n
    }
}

/// Whether every one of the first `n` grains has finished its window.
pub open spec fn all_done(gs: Seq<GrainView>, n: int) -> bool {
    forall|i: int| 0 <= i < n ==> (#[trigger] gs[i]).done
}

/// The pool as the mixer finds it: when every active grain is retired, all
/// of them are rearmed in place, so playback regranulates continuously.
pub open spec fn spec_rearmed(gs: Seq<GrainView>, n: int) -> Seq<GrainView> {
    if all_done(gs, n) {
        gs.map(
            |i: int, g: GrainView|
                if i < n {
                    spec_started(g)
                } else {
                    g
                },
        )
    } else {
        gs
    }
}

/// Whether the mixer takes a contribution from this grain: it must not be
/// retired, and it must fit inside the valid region.
pub open spec fn spec_mixes(g: GrainView) -> bool {
    !g.done && g.size <= g.sample_length
}

/// One grain's state after the mixer produced one output sample.
pub open spec fn grain_step(g: GrainView) -> GrainView {
    if spec_mixes(g) {
        spec_windowed(spec_advanced(g))
    } else {
        g
    }
}

/// One grain's contribution to one output sample: the store sample at its
/// read position, shaped by its window envelope; zero if it does not mix.
pub open spec fn grain_out(g: GrainView, store: Seq<i64>) -> int {
    if spec_mixes(g) {
        scale_fix(store[g.offset + g.current_position] as int, window_fix(g.window, g.playhead, g.size))
    } else {
        0
    }
}

/// The sum of the first `n` grains' contributions.
pub open spec fn mix_sum(gs: Seq<GrainView>, store: Seq<i64>, n: int) -> int
    decreases n,
{
    if n <= 0 {
        0
    } else {
        mix_sum(gs, store, n - 1) + grain_out(gs[n - 1], store)
    }
}

/// What one `next_sample` call returns: the active grains' contributions
/// (after the rearm check), equal-weight mixed by dividing by the count.
pub open spec fn engine_out(gs: Seq<GrainView>, n: int, store: Seq<i64>) -> int {
    div_trunc(mix_sum(spec_rearmed(gs, n), store, n), n)
}

/// Grain `i`'s state after one `next_sample` call on a pool whose views
/// were `gs` with `n` active grains.
pub open spec fn engine_grain_after(gs: Seq<GrainView>, n: int, i: int) -> GrainView {
    if i < n {
        grain_step(spec_rearmed(gs, n)[i])
    } else {
        gs[i]
    }
}

/// The mix reads only the valid region: two stores that agree on the first
/// `valid` samples mix identically, however long they are beyond that.
pub proof fn lemma_mix_reads_valid_region_only(
    gs: Seq<GrainView>,
    s1: Seq<i64>,
    s2: Seq<i64>,
    n: int,
    valid: int,
)
    requires
        forall|i: int| 0 <= i < n ==> (#[trigger] gs[i]).inv() && gs[i].sample_length == valid,
        valid <= s1.len(),
        valid <= s2.len(),
        forall|j: int| 0 <= j < valid ==> s1[j] == s2[j],
    ensures
        mix_sum(gs, s1, n) == mix_sum(gs, s2, n),
    decreases n,
{
    if n > 0 {
        lemma_mix_reads_valid_region_only(gs, s1, s2, n - 1, valid);
        let g = gs[n - 1];
        if spec_mixes(g) {
            assert(g.offset + g.current_position < valid);
        }
    }
}

/// The mixed samples and grain states after `k` consecutive `next_sample`
/// calls on a pool whose views were `gs` with `n` active grains.
pub open spec fn play_block(gs: Seq<GrainView>, n: int, store: Seq<i64>, k: nat) -> (Seq<int>, Seq<
    GrainView,
>)
    decreases k,
{
    if k == 0 {
        (Seq::empty(), gs)
    } else {
        let prev = play_block(gs, n, store, (k - 1) as nat);
        (
            prev.0.push(engine_out(prev.1, n, store)),
            Seq::new(gs.len(), |i: int| engine_grain_after(prev.1, n, i)),
        )
    }
}

/// A block of `k` calls yields `k` samples and leaves the pool's size
/// unchanged.
pub proof fn lemma_play_block_len(gs: Seq<GrainView>, n: int, store: Seq<i64>, k: nat)
    ensures
        play_block(gs, n, store, k).0.len() == k,
        play_block(gs, n, store, k).1.len() == gs.len(),
    decreases k,
{
    if k > 0 {
        lemma_play_block_len(gs, n, store, (k - 1) as nat);
    }
}

/// Producing a sample moves only a grain's counters and done flag: its
/// size, window, gain, offset and valid region stay put.
pub proof fn lemma_engine_grain_after_keeps_shape(gs: Seq<GrainView>, n: int, i: int)
    requires
        0 <= i < gs.len(),
    ensures
        engine_grain_after(gs, n, i).sample_length == gs[i].sample_length,
        engine_grain_after(gs, n, i).size == gs[i].size,
        engine_grain_after(gs, n, i).window == gs[i].window,
        engine_grain_after(gs, n, i).gain == gs[i].gain,
        engine_grain_after(gs, n, i).offset == gs[i].offset,
{
    if i < n {
        let armed = spec_rearmed(gs, n);
        assert(armed[i] == gs[i] || armed[i] == spec_started(gs[i]));
    }
}

/// The mix takes nothing from grains past the active watermark: pools that
/// agree on their first `n` grains mix identically, so lowering the
/// watermark silences the deactivated grains on the very next call.
pub proof fn lemma_mix_active_grains_only(
    gs1: Seq<GrainView>,
    gs2: Seq<GrainView>,
    store: Seq<i64>,
    n: int,
)
    requires
        forall|i: int| 0 <= i < n ==> gs1[i] == gs2[i],
    ensures
        mix_sum(gs1, store, n) == mix_sum(gs2, store, n),
    decreases n,
{
    if n > 0 {
        lemma_mix_active_grains_only(gs1, gs2, store, n - 1);
    }
}

/// The mathematical states of a sequence of grains, in order.
pub open spec fn grain_views(s: Seq<Grain>) -> Seq<GrainView> {
    s.map(|i: int, g: Grain| g@)
}

/// Replacing one grain replaces exactly its view.
proof fn lemma_grain_views_update(s: Seq<Grain>, i: int, g: Grain)
    requires
        0 <= i < s.len(),
    ensures
        grain_views(s.update(i, g)) == grain_views(s).update(i, g@),
{
    assert(grain_views(s.update(i, g)) =~= grain_views(s).update(i, g@));
}

/// Appending a grain appends exactly its view.
proof fn lemma_grain_views_push(s: Seq<Grain>, g: Grain)
    ensures
        grain_views(s.push(g)) == grain_views(s).push(g@),
{
    assert(grain_views(s.push(g)) =~= grain_views(s).push(g@));
}

/// The fixed-capacity grain pool with its global parameters.
pub struct Grains {
    /// Every pre-allocated grain; exactly `MAX_GRAINS` of them.
    pub grains: Vec<Grain>,
    /// The grain length the pool was configured with, in milliseconds.
    pub grain_size: u32,
    /// The per-grain length increment spread across the active grains, in
    /// milliseconds.
    pub grain_size_spread: u32,
    /// How many leading grains take part in the mix; in `[1, MAX_GRAINS]`.
    pub active_grains: usize,
}

impl Grains {
    /// The grains' mathematical states, in pool order.
    pub open spec fn views(&self) -> Seq<GrainView> {
        grain_views(self.grains@)
    }

    /// Well-formedness: a full pool, a watermark inside it, every grain
    /// well-formed.
    pub open spec fn inv(&self) -> bool {
        &&& self.grains@.len() == MAX_GRAINS
        &&& 1 <= self.active_grains <= MAX_GRAINS
        &&& forall|i: int| 0 <= i < MAX_GRAINS ==> (#[trigger] self.views()[i]).inv()
    }

    /// Builds the full pool over a valid region of `sample_length` samples.
    /// The requested count is clamped onto `[1, MAX_GRAINS]` (a request for
    /// none still leaves one voice). The requested spread is divided evenly:
    /// active grain `i` is `grain_size_in_ms + i * (spread / count)`
    /// milliseconds long. The inactive rest of the pool is parked on
    /// minimum-length grains and never touched while the watermark stands.
    pub fn new(
        grain_amount: usize,
        grain_size_in_ms: u32,
        grain_size_spread_in_ms: u32,
        sample_length: u32,
        window_function: WindowFunction,
    ) -> (g: Grains)
        ensures
            g.inv(),
            g.active_grains == clamp_active(grain_amount as int),
            g.grain_size == grain_size_in_ms,
            g.grain_size_spread == (grain_size_spread_in_ms as int) / clamp_active(grain_amount as int),
            forall|i: int|
                0 <= i < g.active_grains ==> g.views()[i] == spec_new_grain(
                    (grain_size_in_ms as int) + i * (g.grain_size_spread as int),
                    sample_length as int,
                    window_function,
                    AUDIO_SAMPLE_RATE as int,
                ),
            forall|i: int|
                g.active_grains <= i < MAX_GRAINS ==> g.views()[i] == spec_new_grain(
                    MIN_GRAIN_MS as int,
                    sample_length as int,
                    window_function,
                    AUDIO_SAMPLE_RATE as int,
                ),
    {
        let active_grains: usize = if grain_amount == 0 {
            1
        } else if grain_amount > MAX_GRAINS {
            MAX_GRAINS
        } else {
            grain_amount
        };
        let grain_size_spread: u32 = grain_size_spread_in_ms / (active_grains as u32);
        let mut grains: Vec<Grain> = Vec::new();
        let mut i: usize = 0;
        while i < MAX_GRAINS
            invariant
                i <= MAX_GRAINS,
                grains@.len() == i,
                1 <= active_grains <= MAX_GRAINS,
                active_grains == clamp_active(grain_amount as int),
                grain_size_spread == (grain_size_spread_in_ms as int) / clamp_active(grain_amount as int),
                forall|j: int|
                    0 <= j < i && j < active_grains ==> (#[trigger] grain_views(grains@)[j])
                        == spec_new_grain(
                        (grain_size_in_ms as int) + j * (grain_size_spread as int),
                        sample_length as int,
                        window_function,
                        AUDIO_SAMPLE_RATE as int,
                    ),
                forall|j: int|
                    active_grains <= j < i ==> (#[trigger] grain_views(grains@)[j])
                        == spec_new_grain(
                        MIN_GRAIN_MS as int,
                        sample_length as int,
                        window_function,
                        AUDIO_SAMPLE_RATE as int,
                    ),
                forall|j: int| 0 <= j < i ==> (#[trigger] grain_views(grains@)[j]).inv(),
            decreases MAX_GRAINS - i,
        {
            let ghost snap = grains@;
            if i < active_grains {
                proof {
                    lemma_mul_upper_bound(i as int, MAX_GRAINS as int, grain_size_spread as int, u32::MAX as int);
                }
                let ms64: u64 = (grain_size_in_ms as u64) + (i as u64) * (grain_size_spread as u64);
                let ms: u32 = if ms64 > (MAX_GRAIN_MS as u64) {
                    MAX_GRAIN_MS
                } else {
                    ms64 as u32
                };
                let gr: Grain = Grain::new(ms, sample_length, window_function, AUDIO_SAMPLE_RATE);
                grains.push(gr);
                proof {
                    lemma_grain_views_push(snap, gr);
                    assert(spec_clamp_ms(ms as int) == spec_clamp_ms(
                        (grain_size_in_ms as int) + (i as int) * (grain_size_spread as int),
                    ));
                    assert(gr@ == spec_new_grain(
                        (grain_size_in_ms as int) + (i as int) * (grain_size_spread as int),
                        sample_length as int,
                        window_function,
                        AUDIO_SAMPLE_RATE as int,
                    ));
                }
            } else {
                let gr: Grain = Grain::new(MIN_GRAIN_MS, sample_length, window_function, AUDIO_SAMPLE_RATE);
                grains.push(gr);
                proof {
                    lemma_grain_views_push(snap, gr);
                }
            }
            i = i + 1;
        }
        Grains { grains, grain_size: grain_size_in_ms, grain_size_spread, active_grains }
    }

    /// Moves every active grain's read window to `offset` (each saturating
    /// so it stays inside the valid region).
    pub fn set_offset(&mut self, offset: u32)
        requires
            old(self).inv(),
        ensures
            final(self).inv(),
            final(self).active_grains == old(self).active_grains,
            final(self).grain_size == old(self).grain_size,
            final(self).grain_size_spread == old(self).grain_size_spread,
            forall|i: int|
                0 <= i < old(self).active_grains ==> final(self).views()[i] == spec_with_offset(
                    old(self).views()[i],
                    offset as int,
                ),
            forall|i: int|
                old(self).active_grains <= i < MAX_GRAINS ==> final(self).views()[i] == old(
                    self,
                ).views()[i],
    {
        let ghost g0 = *self;
        let mut i: usize = 0;
        while i < self.active_grains
            invariant
                i <= self.active_grains,
                self.active_grains == g0.active_grains,
                self.grain_size == g0.grain_size,
                self.grain_size_spread == g0.grain_size_spread,
                self.grains@.len() == MAX_GRAINS,
                g0.inv(),
                forall|j: int|
                    0 <= j < i ==> self.views()[j] == spec_with_offset(g0.views()[j], offset as int),
                forall|j: int| i <= j < MAX_GRAINS ==> self.views()[j] == g0.views()[j],
                forall|j: int| 0 <= j < MAX_GRAINS ==> (#[trigger] self.views()[j]).inv(),
            decreases self.active_grains - i,
        {
            let mut g: Grain = self.grains[i];
            let ghost snap = self.grains@;
            proof {
                assert(g@ == self.views()[i as int]);
            }
            let _prev: u32 = g.set_offset(offset);
            self.grains.set(i, g);
            proof {
                lemma_grain_views_update(snap, i as int, g);
            }
            i = i + 1;
        }
    }

    /// Arms every active grain synchronously: the burst trigger fired on a
    /// control event. Idempotent while no sample is produced in between.
    pub fn start_window_funtion(&mut self)
        requires
            old(self).inv(),
        ensures
            final(self).inv(),
            final(self).active_grains == old(self).active_grains,
            final(self).grain_size == old(self).grain_size,
            final(self).grain_size_spread == old(self).grain_size_spread,
            forall|i: int|
                0 <= i < old(self).active_grains ==> final(self).views()[i] == spec_started(
                    old(self).views()[i],
                ),
            forall|i: int|
                old(self).active_grains <= i < MAX_GRAINS ==> final(self).views()[i] == old(
                    self,
                ).views()[i],
    {
        let ghost g0 = *self;
        let mut i: usize = 0;
        while i < self.active_grains
            invariant
                i <= self.active_grains,
                self.active_grains == g0.active_grains,
                self.grain_size == g0.grain_size,
                self.grain_size_spread == g0.grain_size_spread,
                self.grains@.len() == MAX_GRAINS,
                g0.inv(),
                forall|j: int| 0 <= j < i ==> self.views()[j] == spec_started(g0.views()[j]),
                forall|j: int| i <= j < MAX_GRAINS ==> self.views()[j] == g0.views()[j],
                forall|j: int| 0 <= j < MAX_GRAINS ==> (#[trigger] self.views()[j]).inv(),
            decreases self.active_grains - i,
        {
            let mut g: Grain = self.grains[i];
            let ghost snap = self.grains@;
            proof {
                assert(g@ == self.views()[i as int]);
            }
            g.start_window_funtion();
            self.grains.set(i, g);
            proof {
                lemma_grain_views_update(snap, i as int, g);
            }
            i = i + 1;
        }
    }

    /// Raises or lowers the active watermark, clamped onto
    /// `[1, MAX_GRAINS]`; grains past the new watermark stop contributing
    /// to the very next mixed sample.
    pub fn set_active_grains(&mut self, grain_amount: usize)
        requires
            old(self).inv(),
        ensures
            final(self).inv(),
            final(self).active_grains == clamp_active(grain_amount as int),
            final(self).grains == old(self).grains,
            final(self).grain_size == old(self).grain_size,
            final(self).grain_size_spread == old(self).grain_size_spread,
    {
        self.active_grains = if grain_amount == 0 {
            1
        } else if grain_amount > MAX_GRAINS {
            MAX_GRAINS
        } else {
            grain_amount
        };
        proof {
            assert forall|i: int| 0 <= i < MAX_GRAINS implies (#[trigger] self.views()[i]).inv() by {
                assert(self.views()[i] == old(self).views()[i]);
            }
        }
    }

    /// Republishes the engine's sample source: every grain is pointed at a
    /// valid region of `len` samples. Called at the record-to-play
    /// hand-off.
    pub fn set_sample_length(&mut self, len: u32)
        requires
            old(self).inv(),
        ensures
            final(self).inv(),
            final(self).active_grains == old(self).active_grains,
            final(self).grain_size == old(self).grain_size,
            final(self).grain_size_spread == old(self).grain_size_spread,
            forall|i: int|
                0 <= i < MAX_GRAINS ==> final(self).views()[i] == spec_relinked(
                    old(self).views()[i],
                    len as int,
                ),
    {
        let ghost g0 = *self;
        let mut i: usize = 0;
        while i < MAX_GRAINS
            invariant
                i <= MAX_GRAINS,
                self.active_grains == g0.active_grains,
                self.grain_size == g0.grain_size,
                self.grain_size_spread == g0.grain_size_spread,
                self.grains@.len() == MAX_GRAINS,
                1 <= self.active_grains <= MAX_GRAINS,
                g0.inv(),
                forall|j: int| 0 <= j < i ==> self.views()[j] == spec_relinked(g0.views()[j], len as int),
                forall|j: int| i <= j < MAX_GRAINS ==> self.views()[j] == g0.views()[j],
                forall|j: int| 0 <= j < MAX_GRAINS ==> (#[trigger] self.views()[j]).inv(),
            decreases MAX_GRAINS - i,
        {
            let mut g: Grain = self.grains[i];
            let ghost snap = self.grains@;
            proof {
                assert(g@ == self.views()[i as int]);
            }
            g.relink(len);
            self.grains.set(i, g);
            proof {
                lemma_grain_views_update(snap, i as int, g);
            }
            i = i + 1;
        }
    }

    /// Produces one output sample: if every active grain has finished, the
    /// pool is rearmed first; then each active, unfinished grain that fits
    /// the valid region reads the store at its position, shapes the sample
    /// with its window, and the contributions are summed and divided by the
    /// active count (an equal-weight mix).
    pub fn next_sample(&mut self, store: &[i64]) -> (out: i64)
        requires
            old(self).inv(),
            forall|i: int|
                0 <= i < MAX_GRAINS ==> (#[trigger] old(self).views()[i]).sample_length
                    <= store@.len(),
            forall|j: int| 0 <= j < store@.len() ==> -FIXED_ONE <= #[trigger] store@[j] <= FIXED_ONE,
        ensures
            final(self).inv(),
            final(self).active_grains == old(self).active_grains,
            final(self).grain_size == old(self).grain_size,
            final(self).grain_size_spread == old(self).grain_size_spread,
            forall|i: int|
                0 <= i < MAX_GRAINS ==> final(self).views()[i] == engine_grain_after(
                    old(self).views(),
                    old(self).active_grains as int,
                    i,
                ),
            out == engine_out(old(self).views(), old(self).active_grains as int, store@),
            -FIXED_ONE <= out <= FIXED_ONE,
    {
        let ghost g0 = *self;
        let ghost n = g0.active_grains as int;

        // Rearm check: regranulation restarts the burst once every active
        // grain has completed its window.
        let mut armed_now: bool = true;
        let mut i: usize = 0;
        while i < self.active_grains
            invariant
                i <= self.active_grains,
                *self == g0,
                g0.inv(),
                armed_now == all_done(g0.views(), i as int),
            decreases self.active_grains - i,
        {
            let d: bool = self.grains[i].done_with_window_funtion;
            proof {
                assert(d == g0.views()[i as int].done);
            }
            if !d {
                armed_now = false;
            }
            i = i + 1;
        }
        if armed_now {
            self.start_window_funtion();
        }
        let ghost armed = spec_rearmed(g0.views(), n);
        proof {
            assert forall|j: int| 0 <= j < MAX_GRAINS implies self.views()[j] == armed[j] by {}
            assert(self.views() =~= armed);
        }

        // Mix the active grains.
        let mut sum: i64 = 0;
        let mut i: usize = 0;
        while i < self.active_grains
            invariant
                i <= self.active_grains,
                self.active_grains == g0.active_grains,
                self.grain_size == g0.grain_size,
                self.grain_size_spread == g0.grain_size_spread,
                self.grains@.len() == MAX_GRAINS,
                1 <= self.active_grains <= MAX_GRAINS,
                armed.len() == MAX_GRAINS,
                forall|j: int| 0 <= j < MAX_GRAINS ==> (#[trigger] armed[j]).inv(),
                forall|j: int| 0 <= j < MAX_GRAINS ==> (#[trigger] armed[j]).sample_length <= store@.len(),
                forall|j: int| 0 <= j < store@.len() ==> -FIXED_ONE <= #[trigger] store@[j] <= FIXED_ONE,
                forall|j: int| 0 <= j < i ==> self.views()[j] == grain_step(armed[j]),
                forall|j: int| i <= j < MAX_GRAINS ==> self.views()[j] == armed[j],
                forall|j: int| 0 <= j < MAX_GRAINS ==> (#[trigger] self.views()[j]).inv(),
                sum == mix_sum(armed, store@, i as int),
                -(i * FIXED_ONE) <= sum <= i * FIXED_ONE,
            decreases self.active_grains - i,
        {
            let mut g: Grain = self.grains[i];
            let ghost snap = self.grains@;
            proof {
                assert(g@ == self.views()[i as int]);
                assert(g@ == armed[i as int]);
            }
            if !g.done_with_window_funtion && g.size <= g.sample_length {
                let idx: usize = g.update_sample_position();
                let s: i64 = *slice_index_get(store, idx);
                let y: i64 = g.update_next_sample(s);
                sum = sum + y;
                self.grains.set(i, g);
                proof {
                    lemma_grain_views_update(snap, i as int, g);
                }
            }
            i = i + 1;
        }
        proof {
            assert(sum == mix_sum(armed, store@, n));
            lemma_div_trunc_bound(sum as int, n, FIXED_ONE as int);
        }
        div_by_count(sum, self.active_grains)
    }
}

} // verus!
