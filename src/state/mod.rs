//! Control state of the synthesizer and the decisions taken on key presses.

use vstd::prelude::*;
use crate::graphics::{WAVEFORM_SINE, WAVEFORM_SQUARE};
use crate::music_theory::{Note, OCTAVE_LOWER_BOUND, OCTAVE_UPPER_BOUND};
use crate::waveforms::{Waveform, toggled};
use crate::state::keys::{Key, get_key_mappings, key_mappings};

pub mod keyboard;
pub mod keys;
pub mod utils;

verus! {

/// Number of steps of the low-pass filter's cutoff control; each step is
/// worth 1/7 (0.142857) of the full range.
pub const CUTOFF_STEPS: u32 = 7;

/// The synthesizer's controls as plain values.
pub struct StateView {
    pub octave: int,
    pub waveform: Waveform,
    pub pressed_key: Option<(Key, Note)>,
    pub waveform_sprite_index: usize,
    pub cutoff_step: int,
    pub lpf_active: usize,
}

/// The waveform display sprite that goes with a waveform.
pub open spec fn waveform_sprite_of(w: Waveform) -> usize {
    if w == Waveform::SQUARE {
        WAVEFORM_SQUARE
    } else {
        WAVEFORM_SINE
    }
}

/// The state of the controls is consistent: the octave is within its bounds,
/// the cutoff within its steps, the filter flag 0 or 1, and the waveform
/// sprite the one of the selected waveform.
pub open spec fn controls_wf(v: StateView) -> bool {
    &&& OCTAVE_LOWER_BOUND <= v.octave <= OCTAVE_UPPER_BOUND
    &&& 0 <= v.cutoff_step <= CUTOFF_STEPS
    &&& v.lpf_active <= 1
    &&& v.waveform_sprite_index == waveform_sprite_of(v.waveform)
}

/// The controls of a freshly started synthesizer.
pub open spec fn initial_controls() -> StateView {
    StateView {
        octave: 4,
        waveform: Waveform::SINE,
        pressed_key: None,
        waveform_sprite_index: WAVEFORM_SINE,
        cutoff_step: 0,
        lpf_active: 0,
    }
}

/// One octave up, unless at the upper bound.
pub open spec fn octave_raised(v: StateView) -> StateView {
    if v.octave < OCTAVE_UPPER_BOUND {
        StateView { octave: v.octave + 1, ..v }
    } else {
        v
    }
}

/// One octave down, unless at the lower bound.
pub open spec fn octave_lowered(v: StateView) -> StateView {
    if v.octave > OCTAVE_LOWER_BOUND {
        StateView { octave: v.octave - 1, ..v }
    } else {
        v
    }
}

/// The filter switched on or off, with its cutoff back at zero.
pub open spec fn lpf_toggled(v: StateView) -> StateView {
    StateView { lpf_active: v.lpf_active ^ 1usize, cutoff_step: 0, ..v }
}

/// One cutoff step up, while the filter is on and the cutoff is at most 0.9
/// (six steps).
pub open spec fn cutoff_raised(v: StateView) -> StateView {
    if v.lpf_active == 1 && v.cutoff_step <= 6 {
        StateView { cutoff_step: v.cutoff_step + 1, ..v }
    } else {
        v
    }
}

/// One cutoff step down, while the filter is on and the cutoff is at least
/// 0.15 (two steps); one step is therefore the lowest that lowering reaches.
pub open spec fn cutoff_lowered(v: StateView) -> StateView {
    if v.lpf_active == 1 && v.cutoff_step >= 2 {
        StateView { cutoff_step: v.cutoff_step - 1, ..v }
    } else {
        v
    }
}

/// The other waveform selected, with its display sprite.
pub open spec fn waveform_toggled(v: StateView) -> StateView {
    StateView {
        waveform: toggled(v.waveform),
        waveform_sprite_index: waveform_sprite_of(toggled(v.waveform)),
        ..v
    }
}

/// The first playing key, in table order, among the keys pressed this frame,
/// looking from row `i` of the key table on.
pub open spec fn first_pressed_from(pressed: Seq<Key>, i: nat) -> Option<(Key, Note)>
    decreases 12 - i,
{
    if i >= 12 {
        None
    } else if pressed.contains(key_mappings()[i as int].0) {
        Some((key_mappings()[i as int].0, key_mappings()[i as int].1))
    } else {
        first_pressed_from(pressed, i + 1)
    }
}

/// The first playing key, in table order, among the keys pressed this frame.
pub open spec fn first_pressed(pressed: Seq<Key>) -> Option<(Key, Note)> {
    first_pressed_from(pressed, 0)
}

/// The controls after a frame in which no playing key was pressed: the
/// waveform toggle (F), octave up (F2) and down (F1), cutoff up (F4) and
/// down (F3), applied in that order.
pub open spec fn controls_applied(v: StateView, pressed: Seq<Key>) -> StateView {
    let s1 = if pressed.contains(Key::F) { waveform_toggled(v) } else { v };
    let s2 = if pressed.contains(Key::F2) && s1.octave < OCTAVE_UPPER_BOUND { octave_raised(s1) } else { s1 };
    let s3 = if pressed.contains(Key::F1) && s2.octave > OCTAVE_LOWER_BOUND { octave_lowered(s2) } else { s2 };
    let s4 = if pressed.contains(Key::F4) { cutoff_raised(s3) } else { s3 };
    if pressed.contains(Key::F3) { cutoff_lowered(s4) } else { s4 }
}

/// The consistency of the controls holds from the start and survives every
/// control action and every frame of key presses.
pub proof fn lemma_controls_stay_consistent(v: StateView, pressed: Seq<Key>)
    requires
        controls_wf(v),
    ensures
        controls_wf(initial_controls()),
        controls_wf(octave_raised(v)),
        controls_wf(octave_lowered(v)),
        controls_wf(lpf_toggled(v)),
        controls_wf(cutoff_raised(v)),
        controls_wf(cutoff_lowered(v)),
        controls_wf(waveform_toggled(v)),
        controls_wf(controls_applied(v, pressed)),
        first_pressed(pressed) matches Some(hit) ==> controls_wf(StateView { pressed_key: Some(hit), ..v }),
{
    let a = v.lpf_active;
    assert(a ^ 1usize <= 1) by (bit_vector)
        requires
            a <= 1,
    ;
}

/// The synthesizer's controls: octave, waveform, the last note played, and
/// the low-pass filter's switch and cutoff.
pub struct State {
    octave: i32,
    waveform: Waveform,
    pressed_key: Option<(Key, Note)>,
    waveform_sprite_index: usize,
    cutoff_step: u32,
    lpf_active: usize,
}

impl View for State {
    type V = StateView;

    closed spec fn view(&self) -> StateView {
        StateView {
            octave: self.octave as int,
            waveform: self.waveform,
            pressed_key: self.pressed_key,
            waveform_sprite_index: self.waveform_sprite_index,
            cutoff_step: self.cutoff_step as int,
            lpf_active: self.lpf_active,
        }
    }
}

impl State {
    /// Octave 4, sine waveform, no note played, filter off with cutoff zero.
    pub fn new() -> (r: Self)
        ensures
            r@ == initial_controls(),
    {
        State {
            octave: 4,
            waveform: Waveform::SINE,
            pressed_key: None,
            waveform_sprite_index: WAVEFORM_SINE,
            cutoff_step: 0,
            lpf_active: 0,
        }
    }

    /// Raises the octave by one unless it is already at the upper bound.
    pub fn increase_octave(&mut self)
        ensures
            final(self)@ == octave_raised(old(self)@),
    {
        if self.octave < OCTAVE_UPPER_BOUND {
            self.octave += 1;
        }
    }

    /// Lowers the octave by one unless it is already at the lower bound.
    pub fn decrease_octave(&mut self)
        ensures
            final(self)@ == octave_lowered(old(self)@),
    {
        if self.octave > OCTAVE_LOWER_BOUND {
            self.octave -= 1;
        }
    }

    /// Switches the low-pass filter on or off and resets its cutoff.
    pub fn toggle_lpf(&mut self)
        ensures
            final(self)@ == lpf_toggled(old(self)@),
    {
        self.lpf_active ^= 1;
        self.cutoff_step = 0;
    }

    /// Raises the filter cutoff by one step while the filter is on and the
    /// cutoff is at most 0.9.
    pub fn increase_filter_cutoff(&mut self)
        ensures
            final(self)@ == cutoff_raised(old(self)@),
    {
        if self.lpf_active == 1 && self.cutoff_step <= 6 {
            self.cutoff_step += 1;
        }
    }

    /// Lowers the filter cutoff by one step while the filter is on and the
    /// cutoff is at least 0.15.
    pub fn decrease_filter_cutoff(&mut self)
        ensures
            final(self)@ == cutoff_lowered(old(self)@),
    {
        if self.lpf_active == 1 && self.cutoff_step >= 2 {
            self.cutoff_step -= 1;
        }
    }

    /// The selected octave.
    pub fn get_current_octave(&self) -> (r: i32)
        ensures
            r == self@.octave,
    {
        self.octave
    }

    /// Switches between the sine and the square waveform, with its display sprite.
    pub fn toggle_waveform(&mut self)
        ensures
            final(self)@ == waveform_toggled(old(self)@),
    {
        self.waveform = self.waveform.toggle();
        self.waveform_sprite_index = if self.waveform == Waveform::SQUARE {
            WAVEFORM_SQUARE
        } else {
            WAVEFORM_SINE
        };
    }

    /// The selected waveform.
    pub fn get_current_waveform(&self) -> (r: Waveform)
        ensures
            r == self@.waveform,
    {
        self.waveform
    }

    /// The last playing key pressed, with its note, if any.
    pub fn get_pressed_key(&self) -> (r: Option<(Key, Note)>)
        ensures
            r == self@.pressed_key,
    {
        self.pressed_key
    }

    /// Index of the sprite that shows the selected waveform.
    pub fn get_waveform_sprite_index(&self) -> (r: usize)
        ensures
            r == self@.waveform_sprite_index,
    {
        self.waveform_sprite_index
    }

    /// The filter cutoff, in steps of 1/7 of the full range.
    pub fn get_filter_cutoff_step(&self) -> (r: u32)
        ensures
            r == self@.cutoff_step,
    {
        self.cutoff_step
    }

    /// Whether the low-pass filter is switched on.
    pub fn is_lpf_active(&self) -> (r: bool)
        ensures
            r == (self@.lpf_active == 1),
    {
        self.lpf_active == 1
    }
}

/// Whether `key` is among the keys pressed this frame.
pub fn is_pressed(pressed: &Vec<Key>, key: Key) -> (r: bool)
    ensures
        r == pressed@.contains(key),
{
    let mut i: usize = 0;
    while i < pressed.len()
        invariant
            i <= pressed.len(),
            forall|j: int| 0 <= j < i ==> pressed@[j] != key,
        decreases pressed.len() - i,
    {
        if pressed[i] == key {
            return true;
        }
        i = i + 1;
    }
    false
}

/// Reacts to the keys pressed in one frame. The first playing key in table
/// order wins: it is recorded as the pressed key and its note is returned, to
/// be played with the current octave and waveform. Without one, the control
/// keys are applied and nothing is played.
pub fn handle_key_presses(state: &mut State, pressed: &Vec<Key>) -> (r: Option<Note>)
    ensures
        match first_pressed(pressed@) {
            Some(hit) => r == Some(hit.1) && final(state)@ == (StateView {
                pressed_key: Some(hit),
                ..old(state)@
            }),
            None => r.is_none() && final(state)@ == controls_applied(old(state)@, pressed@),
        },
{
    let mappings = get_key_mappings();
    let mut i: usize = 0;
    while i < mappings.len()
        invariant
            mappings@ == key_mappings(),
            i <= 12,
            *state == *old(state),
            first_pressed(pressed@) == first_pressed_from(pressed@, i as nat),
        decreases mappings.len() - i,
    {
        let (key, note, _, _) = mappings[i];
        if is_pressed(pressed, key) {
            state.pressed_key = Some((key, note));
            return Some(note);
        }
        i = i + 1;
    }
    if is_pressed(pressed, Key::F) {
        state.toggle_waveform();
    }
    if is_pressed(pressed, Key::F2) && state.get_current_octave() < OCTAVE_UPPER_BOUND {
        state.increase_octave();
    }
    if is_pressed(pressed, Key::F1) && state.get_current_octave() > OCTAVE_LOWER_BOUND {
        state.decrease_octave();
    }
    if is_pressed(pressed, Key::F4) {
        state.increase_filter_cutoff();
    }
    if is_pressed(pressed, Key::F3) {
        state.decrease_filter_cutoff();
    }
    None
}

} // verus!
