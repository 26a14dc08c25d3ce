//! A musical keyboard that remembers its octave and waveform.

use vstd::prelude::*;
use crate::music_theory::{OCTAVE_LOWER_BOUND, OCTAVE_UPPER_BOUND};
use crate::waveforms::{Waveform, toggled};

verus! {

/// Octave and waveform selection of a musical keyboard.
pub struct Keyboard {
    current_octave: i32,
    current_waveform: Waveform,
}

impl Keyboard {
    /// The selected octave.
    pub closed spec fn octave(&self) -> i32 {
        self.current_octave
    }

    /// The selected waveform.
    pub closed spec fn waveform(&self) -> Waveform {
        self.current_waveform
    }

    /// A keyboard in the reference octave 4, playing sine waves.
    pub fn new() -> (r: Self)
        ensures
            r.octave() == 4,
            r.waveform() == Waveform::SINE,
    {
        Self { current_octave: 4, current_waveform: Waveform::SINE }
    }

    /// Raises the octave by one unless it is already at the upper bound.
    pub fn increase_octave(&mut self)
        ensures
            final(self).octave() == if old(self).octave() < OCTAVE_UPPER_BOUND {
                old(self).octave() + 1
            } else {
                old(self).octave() as int
            },
            final(self).waveform() == old(self).waveform(),
    {
        if self.current_octave < OCTAVE_UPPER_BOUND {
            self.current_octave += 1;
        }
    }

    /// Lowers the octave by one unless it is already at the lower bound.
    pub fn decrease_octave(&mut self)
        ensures
            final(self).octave() == if old(self).octave() > OCTAVE_LOWER_BOUND {
                old(self).octave() - 1
            } else {
                old(self).octave() as int
            },
            final(self).waveform() == old(self).waveform(),
    {
        if self.current_octave > OCTAVE_LOWER_BOUND {
            self.current_octave -= 1;
        }
    }

    /// The selected octave.
    pub fn get_current_octave(&self) -> (r: i32)
        ensures
            r == self.octave(),
    {
        self.current_octave
    }

    /// Switches between the sine and the square waveform.
    pub fn toggle_waveform(&mut self)
        ensures
            final(self).waveform() == toggled(old(self).waveform()),
            final(self).octave() == old(self).octave(),
    {
        self.current_waveform = self.current_waveform.toggle();
    }

    /// The selected waveform.
    pub fn get_current_waveform(&self) -> (r: Waveform)
        ensures
            r == self.waveform(),
    {
        self.current_waveform
    }
}

} // verus!
