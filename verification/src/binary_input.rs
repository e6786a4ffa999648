//! Edge-detecting debouncer over one raw digital line.
//!
//! A `BinaryInput` remembers how the line is wired (`ActiveHigh` or
//! `ActiveLow`), the logical state saved at the last polling tick, and
//! whether that save saw a low-to-high transition. The electrical level is
//! read by the hardware layer and handed in as a plain `bool`.
use vstd::prelude::*;

verus! {

/// How the electrical level of the line maps to the logical state.
#[derive(Clone, Copy, Debug)]
pub enum InputType {
    ActiveHigh,
    ActiveLow,
}

/// One polled digital input: a button, switch or gate input.
pub struct BinaryInput {
    input_type: InputType,
    state: bool,
    transition: bool,
}

impl BinaryInput {
    /// The logical state the line shows when its electrical level is
    /// `raw_high`: the level itself for `ActiveHigh`, its negation for
    /// `ActiveLow`.
    pub closed spec fn active(&self, raw_high: bool) -> bool {
        match self.input_type {
            InputType::ActiveHigh => raw_high,
            InputType::ActiveLow => !raw_high,
        }
    }

    /// The logical state stored by the last `save_state`.
    pub closed spec fn saved(&self) -> bool {
        self.state
    }

    /// Whether the last `save_state` saw a low-to-high transition.
    pub closed spec fn edge(&self) -> bool {
        self.transition
    }

    /// A new input; nothing saved yet, no transition seen.
    pub fn new(input_type: InputType) -> (r: Self)
        ensures
            !r.saved(),
            !r.edge(),
            forall|raw: bool| r.active(raw) == (match input_type {
                InputType::ActiveHigh => raw,
                InputType::ActiveLow => !raw,
            }),
    {
        BinaryInput { input_type, state: false, transition: false }
    }

    /// Checks if the logical input is high, given the electrical level.
    pub fn is_input_high(&self, raw_high: bool) -> (r: bool)
        ensures
            r == self.active(raw_high),
    {
        match self.input_type {
            InputType::ActiveHigh => raw_high,
            InputType::ActiveLow => !raw_high,
        }
    }

    /// Checks if the logical input is low, given the electrical level.
    pub fn is_input_low(&self, raw_high: bool) -> (r: bool)
        ensures
            r == !self.active(raw_high),
    {
        !self.is_input_high(raw_high)
    }

    /// Reads the logical input, given the electrical level.
    pub fn get_input_state(&self, raw_high: bool) -> (r: bool)
        ensures
            r == self.active(raw_high),
    {
        self.is_input_high(raw_high)
    }

    /// Saves the current logical state and records whether it is a
    /// low-to-high transition against the previously saved state.
    pub fn save_state(&mut self, raw_high: bool)
        ensures
            final(self).saved() == old(self).active(raw_high),
            final(self).edge() == (old(self).active(raw_high) != old(self).saved()
                && old(self).active(raw_high)),
            forall|raw: bool| final(self).active(raw) == old(self).active(raw),
    {
        if self.get_input_state(raw_high) != self.get_saved_state() && self.is_input_high(raw_high) {
            self.transition = true;
        } else {
            self.transition = false;
        }
        self.state = self.is_input_high(raw_high);
    }

    /// Returns the stored state.
    pub fn get_saved_state(&self) -> (r: bool)
        ensures
            r == self.saved(),
    {
        self.state
    }

    /// Checks if the stored state is high.
    pub fn is_saved_state_high(&self) -> (r: bool)
        ensures
            r == self.saved(),
    {
        self.state
    }

    /// Checks if the stored state is low.
    pub fn is_saved_state_low(&self) -> (r: bool)
        ensures
            r == !self.saved(),
    {
        !self.state
    }

    /// Returns `true` if the saved state changed from low to high at the
    /// last polling tick.
    pub fn is_triggered(&self) -> (r: bool)
        ensures
            r == self.edge(),
    {
        self.transition
    }

    /// Returns `true` if the saved state is high.
    pub fn is_pressed(&self) -> (r: bool)
        ensures
            r == self.saved(),
    {
        self.state
    }
}

} // verus!
