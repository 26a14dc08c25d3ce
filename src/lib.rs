//! Core of a small synthesizer: the chromatic note table, the keyboard and
//! control state, and the pixel-sprite compositing that draws the front panel.
//!
//! Sample generation itself works on floating-point values and lives with the
//! audio front end that links this library.

pub mod music_theory;
pub mod waveforms;
pub mod graphics;
pub mod state;
