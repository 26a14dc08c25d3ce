//! Pixel compositing for the front panel: ARGB pixels, alpha blending of a
//! sprite onto the window buffer, and cutting sprite sheets into sprites.

use vstd::prelude::*;

pub mod sheet;
pub mod sprite;
pub mod sprites;

verus! {

/// Width of the window, in pixels.
pub const WINDOW_WIDTH: usize = 575;

/// Height of the window, in pixels.
pub const WINDOW_HEIGHT: usize = 496;

/// Waveform sprite indices.
pub const WAVEFORM_SINE: usize = 0;
pub const WAVEFORM_SQUARE: usize = 1;

/// Key sprite indices.
pub const KEY_IDLE: usize = 0;
pub const KEY_PRESSED: usize = 1;

/// Tangent sprite indices.
pub const TANGENT_IDLE: usize = 0;
pub const TANGENT_PRESSED: usize = 1;

/// Note sprite indices.
pub const NOTE_A: usize = 0;
pub const NOTE_A_SHARP: usize = 1;
pub const NOTE_B: usize = 2;
pub const NOTE_C: usize = 3;
pub const NOTE_C_SHARP: usize = 4;
pub const NOTE_D: usize = 5;
pub const NOTE_D_SHARP: usize = 6;
pub const NOTE_E: usize = 7;
pub const NOTE_F: usize = 8;
pub const NOTE_F_SHARP: usize = 9;
pub const NOTE_G: usize = 10;
pub const NOTE_G_SHARP: usize = 11;

} // verus!
