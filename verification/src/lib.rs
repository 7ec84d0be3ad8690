//! An animated plasma field: oscillators that drift in phase and amplitude, a
//! mixer that turns them into colours, and a renderer that packs the colours
//! into byte buffers of several pixel layouts.
//!
//! Numbers are single precision and travel as their IEEE-754 bit patterns
//! (`Flt`). Randomness comes from the caller: a new oscillator is made of
//! `SeedDraws`, an animation step takes `TickDraws`.
pub mod color;
pub mod flt;
pub mod host;
pub mod mixer;
pub mod phase_amp;
pub mod pixel_buffer;
pub mod plasma;

pub use crate::color::PixelRgb;
pub use crate::flt::Flt;
pub use crate::host::set_dpi_awareness;
pub use crate::mixer::{
    compose4, IntermediateCalculator, Mixer, PlasmaLineCalc, PlasmaLineCalcProducer, PlasmaMixer,
};
pub use crate::phase_amp::{
    transform, PhaseAmp, PhaseAmpAccess, PhaseAmpCfg, PhaseAmpConfig, PhaseAmpDataExp, PhaseAmpPoint, PhaseAmpsSelect, SeedDraws,
    TickDraws,
};
pub use crate::pixel_buffer::{
    PixelBufRGB16, PixelBufRGB16x2, PixelBufRGB24, PixelBufRGBA32, PixelBuffer, ToColor8,
};
pub use crate::plasma::{render_part, render_part_batched, Plasma};
