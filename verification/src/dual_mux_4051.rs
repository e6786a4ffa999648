//! Multiplexed analog reader: two 8:1 multiplexers share three select lines
//! and feed one ADC, giving 16 logical channels.
//!
//! The routing decisions live here and are verified: which multiplexer a
//! channel goes through, the select-bit pattern (`channel mod 8`), and the
//! normalization of a raw conversion onto `[0, FIXED_ONE]`. Driving the
//! select pins and running the blocking conversion is hardware work; the
//! raw conversion result is handed in as a plain value and cached per
//! channel, so `get_value` never blocks.
use vstd::prelude::*;

use crate::config::FIXED_ONE;
use vstd::arithmetic::div_mod::lemma_div_is_ordered;
use vstd::arithmetic::div_mod::lemma_div_by_multiple;
use vstd::arithmetic::div_mod::lemma_div_pos_is_pos;
use vstd::arithmetic::mul::lemma_mul_upper_bound;

verus! {

/// How many inputs one multiplexer has.
pub const MUX_INPUTS: usize = 8;

/// Number of logical channels over both multiplexers.
pub const MUX_CHANNELS: usize = 16;

/// Which of the two multiplexers a conversion routes through.
#[derive(Clone, Copy, Debug, PartialEq, Eq, Structural)]
pub enum MuxRoute {
    MuxA,
    MuxB,
}

/// The channel slot a (possibly out-of-range) channel number lands in:
/// out-of-range requests saturate onto the last slot rather than faulting.
pub open spec fn spec_channel_slot(channel: int) -> int {
    if channel >= MUX_CHANNELS {
        MUX_CHANNELS - 1
    } else {
        channel
    }
}

/// The select-bit pattern for a channel: the binary digits of
/// `slot mod 8`, least significant first.
pub open spec fn spec_select_bits(channel: int) -> (bool, bool, bool) {
    let p = spec_channel_slot(channel) % (MUX_INPUTS as int);
    (p % 2 == 1, (p / 2) % 2 == 1, (p / 4) % 2 == 1)
}

/// Which multiplexer serves a channel: the first nine channels go through
/// A, the rest through B.
pub open spec fn spec_route(channel: int) -> MuxRoute {
    if channel <= 8 {
        MuxRoute::MuxA
    } else {
        MuxRoute::MuxB
    }
}

/// A raw conversion normalized onto `[0, FIXED_ONE]`: readings above the
/// converter's maximum saturate.
pub open spec fn spec_normalized(raw: int, adc_max: int) -> int
    recommends
        1 <= adc_max,
{
    let capped = if raw > adc_max {
        adc_max
    } else {
        raw
    };
    (capped * (FIXED_ONE as int)) / adc_max
}

/// Normalizes one raw conversion against a converter's full-scale value.
pub fn normalize_sample(raw: u32, adc_max: u32) -> (r: i64)
    requires
        1 <= adc_max,
    ensures
        r == spec_normalized(raw as int, adc_max as int),
        0 <= r <= FIXED_ONE,
{
    let capped: u32 = if raw > adc_max {
        adc_max
    } else {
        raw
    };
    proof {
        lemma_mul_upper_bound(capped as int, u32::MAX as int, FIXED_ONE as int, FIXED_ONE as int);
        lemma_div_pos_is_pos((capped as int) * (FIXED_ONE as int), adc_max as int);
        lemma_div_is_ordered(
            (capped as int) * (FIXED_ONE as int),
            (FIXED_ONE as int) * (adc_max as int),
            adc_max as int,
        );
        lemma_div_by_multiple(FIXED_ONE as int, adc_max as int);
        vstd::arithmetic::mul::lemma_mul_is_commutative(capped as int, FIXED_ONE as int);
        vstd::arithmetic::mul::lemma_mul_inequality(capped as int, adc_max as int, FIXED_ONE as int);
    }
    ((capped as u64) * (FIXED_ONE as u64) / (adc_max as u64)) as i64
}

/// The reader: the converter's full-scale value and the last normalized
/// reading of each channel.
pub struct DualMux {
    adc_max: u32,
    value: Vec<i64>,
}

impl DualMux {
    /// The converter's full-scale raw value.
    pub closed spec fn adc_max(&self) -> int {
        self.adc_max as int
    }

    /// The cached normalized readings, one per channel.
    pub closed spec fn values(&self) -> Seq<i64> {
        self.value@
    }

    /// Well-formedness: a sane full scale, one slot per channel, every
    /// cached reading normalized.
    pub open spec fn inv(&self) -> bool {
        &&& 1 <= self.adc_max()
        &&& self.values().len() == MUX_CHANNELS
        &&& forall|i: int|
            0 <= i < MUX_CHANNELS ==> 0 <= #[trigger] self.values()[i] <= FIXED_ONE
    }

    /// A new reader for a converter whose full-scale raw value is
    /// `adc_max` (at least 1); every channel starts at zero.
    pub fn new(adc_max: u32) -> (r: DualMux)
        ensures
            r.inv(),
            r.adc_max() == if adc_max >= 1 { adc_max as int } else { 1 },
            forall|i: int| 0 <= i < MUX_CHANNELS ==> #[trigger] r.values()[i] == 0,
    {
        let max: u32 = if adc_max >= 1 {
            adc_max
        } else {
            1
        };
        let mut value: Vec<i64> = Vec::new();
        let mut i: usize = 0;
        while i < MUX_CHANNELS
            invariant
                i <= MUX_CHANNELS,
                value@.len() == i,
                forall|j: int| 0 <= j < i ==> #[trigger] value@[j] == 0,
            decreases MUX_CHANNELS - i,
        {
            value.push(0);
            i = i + 1;
        }
        DualMux { adc_max: max, value }
    }

    /// The select-bit pattern a conversion on `input_number` drives onto
    /// the three shared select pins: the binary digits of the channel
    /// modulo 8, least significant first.
    pub fn select_pattern(input_number: usize) -> (bits: (bool, bool, bool))
        ensures
            bits == spec_select_bits(input_number as int),
    {
        let slot: usize = if input_number >= MUX_CHANNELS {
            MUX_CHANNELS - 1
        } else {
            input_number
        };
        let p: usize = slot % MUX_INPUTS;
        (p % 2 == 1, (p / 2) % 2 == 1, (p / 4) % 2 == 1)
    }

    /// Which multiplexer a conversion on `input_number` must route
    /// through.
    pub fn route(input_number: usize) -> (r: MuxRoute)
        ensures
            r == spec_route(input_number as int),
    {
        if input_number <= 8 {
            MuxRoute::MuxA
        } else {
            MuxRoute::MuxB
        }
    }

    /// Stores the raw result of one conversion on `input_number`,
    /// normalized onto `[0, FIXED_ONE]`. An out-of-range channel saturates
    /// onto the last slot.
    pub fn read_value(&mut self, input_number: usize, raw_sample: u32)
        requires
            old(self).inv(),
        ensures
            final(self).inv(),
            final(self).adc_max() == old(self).adc_max(),
            final(self).values() == old(self).values().update(
                spec_channel_slot(input_number as int),
                spec_normalized(raw_sample as int, old(self).adc_max()) as i64,
            ),
    {
        let slot: usize = if input_number >= MUX_CHANNELS {
            MUX_CHANNELS - 1
        } else {
            input_number
        };
        let normalized: i64 = normalize_sample(raw_sample, self.adc_max);
        self.value.set(slot, normalized);
    }

    /// The last stored reading of `input_number`, normalized onto
    /// `[0, FIXED_ONE]`; never blocks, stale until the channel is read
    /// again. An out-of-range channel saturates onto the last slot.
    pub fn get_value(&self, input_number: usize) -> (r: i64)
        requires
            self.inv(),
        ensures
            r == self.values()[spec_channel_slot(input_number as int)],
            0 <= r <= FIXED_ONE,
    {
        let slot: usize = if input_number >= MUX_CHANNELS {
            MUX_CHANNELS - 1
        } else {
            input_number
        };
        self.value[slot]
    }
}

} // verus!
