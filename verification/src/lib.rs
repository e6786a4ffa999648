//! Core of a granular-synthesis instrument: a grain engine over a recorded
//! sample store, the record/playback pipeline that drives it, the multiplexed
//! analog-control reader that feeds it parameters, and a debouncer for the
//! digital inputs.
//!
//! All continuous quantities (audio samples, gains, normalized control
//! values, window envelopes) are fixed-point integers with
//! [`config::FIXED_ONE`] standing for 1.0, so that every computation here can
//! be reasoned about exactly. The hardware itself (pins, ADC conversions,
//! audio frames) lives outside this crate; the functions here take the raw
//! readings as plain values and return the decisions and samples as plain
//! values.

pub mod binary_input;
pub mod config;
pub mod dual_mux_4051;
pub mod fixed;
pub mod granular;
pub mod lcd;
pub mod sdram;
pub mod sitira;
pub mod window;
