//! A wavetable snapshot repeater: per-channel capture and looped playback of
//! a periodically refreshed window of the incoming signal.
//!
//! All quantities are integers. Samples are opaque values that are only
//! moved; positions, rates and control values are fixed-point numbers, see
//! [`phase`] and [`scale`].

pub mod channel;
pub mod effect;
pub mod laws;
pub mod param;
pub mod phase;
pub mod scale;
pub mod text;
