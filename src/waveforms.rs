//! Waveform kinds and the fixed output format of the generated audio.

use vstd::prelude::*;

verus! {

/// Samples per second of the generated audio.
pub const SAMPLE_RATE: u32 = 48000;

/// Number of output channels (mono).
pub const MONO: u16 = 1;

/// The oscillator algorithm that a triggered note is played with.
#[derive(Clone, Copy, Debug, PartialEq, Eq, Structural)]
pub enum Waveform {
    SINE,
    SQUARE,
    SAW,
}

/// How a waveform kind is written on the display.
pub open spec fn waveform_label(w: Waveform) -> Seq<char> {
    match w {
        Waveform::SINE => seq!['S', 'i', 'n', 'e'],
        Waveform::SQUARE => seq!['S', 'q', 'u', 'a', 'r', 'e'],
        Waveform::SAW => seq!['S', 'a', 'w'],
    }
}

/// The waveform selected after pressing the waveform toggle: Sine and Square
/// alternate; Saw is not on the toggle and leads back to Sine.
pub open spec fn toggled(w: Waveform) -> Waveform {
    match w {
        Waveform::SINE => Waveform::SQUARE,
        _ => Waveform::SINE,
    }
}

impl Waveform {
    /// The waveform kind as written on the display.
    pub fn name(&self) -> (r: &'static str)
        ensures
            r@ == waveform_label(*self),
    {
        proof {
            reveal_strlit("Sine");
            reveal_strlit("Square");
            reveal_strlit("Saw");
        }
        match self {
            Waveform::SINE => "Sine",
            Waveform::SQUARE => "Square",
            Waveform::SAW => "Saw",
        }
    }

    /// The waveform that the toggle control selects next.
    pub fn toggle(&self) -> (r: Waveform)
        ensures
            r == toggled(*self),
    {
        match self {
            Waveform::SINE => Waveform::SQUARE,
            _ => Waveform::SINE,
        }
    }
}

} // verus!
