//! A polyphonic software synthesizer core: a signal-flow graph of DSP nodes
//! (envelope, oscillator, mixer) evaluated sample by sample over a shared link
//! bus, with polyphonic voice allocation and generation-tagged hot patch
//! replacement.
//!
//! All signal values are fixed-point `i64` amounts: `SCALE` units stand for
//! 1.0, and every bus value is kept within `[-AMP_MAX, AMP_MAX]` by
//! saturating arithmetic.

pub mod adsr;
pub mod fixed;
pub mod midi;
pub mod mixer;
pub mod patch;
pub mod port;
pub mod serialized;
pub mod sinosc;
pub mod swap;
pub mod voice;
