use synthesizer::graphics::{
    NOTE_A, NOTE_A_SHARP, NOTE_B, NOTE_C, NOTE_C_SHARP, NOTE_D, NOTE_D_SHARP, NOTE_E, NOTE_F,
    NOTE_F_SHARP, NOTE_G, NOTE_G_SHARP, WAVEFORM_SINE, WAVEFORM_SQUARE,
};
use synthesizer::music_theory::Note;
use synthesizer::state::keyboard::Keyboard;
use synthesizer::state::keys::{
    create_tangent_map, get_key_mappings, get_key_position, get_note_sprite_index, Key,
};
use synthesizer::state::utils::next_display_index;
use synthesizer::state::{handle_key_presses, is_pressed, State};
use synthesizer::waveforms::Waveform;

#[test]
fn keyboard_starts_in_octave_four_with_sine() {
    let k = Keyboard::new();
    assert_eq!(k.get_current_octave(), 4);
    assert_eq!(k.get_current_waveform(), Waveform::SINE);
}

#[test]
fn keyboard_octave_stays_within_bounds() {
    let mut k = Keyboard::new();
    for _ in 0..10 {
        k.increase_octave();
    }
    assert_eq!(k.get_current_octave(), 8);
    for _ in 0..10 {
        k.decrease_octave();
    }
    assert_eq!(k.get_current_octave(), 1);
    k.increase_octave();
    assert_eq!(k.get_current_octave(), 2);
}

#[test]
fn keyboard_toggles_waveform() {
    let mut k = Keyboard::new();
    k.toggle_waveform();
    assert_eq!(k.get_current_waveform(), Waveform::SQUARE);
    k.toggle_waveform();
    assert_eq!(k.get_current_waveform(), Waveform::SINE);
}

#[test]
fn state_starts_at_defaults() {
    let s = State::new();
    assert_eq!(s.get_current_octave(), 4);
    assert_eq!(s.get_current_waveform(), Waveform::SINE);
    assert_eq!(s.get_pressed_key(), None);
    assert_eq!(s.get_waveform_sprite_index(), WAVEFORM_SINE);
    assert_eq!(s.get_filter_cutoff_step(), 0);
    assert!(!s.is_lpf_active());
}

#[test]
fn state_toggle_waveform_moves_sprite() {
    let mut s = State::new();
    s.toggle_waveform();
    assert_eq!(s.get_current_waveform(), Waveform::SQUARE);
    assert_eq!(s.get_waveform_sprite_index(), WAVEFORM_SQUARE);
    s.toggle_waveform();
    assert_eq!(s.get_current_waveform(), Waveform::SINE);
    assert_eq!(s.get_waveform_sprite_index(), WAVEFORM_SINE);
}

#[test]
fn state_octave_bounds() {
    let mut s = State::new();
    for _ in 0..6 {
        s.increase_octave();
    }
    assert_eq!(s.get_current_octave(), 8);
    for _ in 0..9 {
        s.decrease_octave();
    }
    assert_eq!(s.get_current_octave(), 1);
}

#[test]
fn cutoff_moves_only_while_filter_is_on() {
    let mut s = State::new();
    s.increase_filter_cutoff();
    assert_eq!(s.get_filter_cutoff_step(), 0);
    s.toggle_lpf();
    assert!(s.is_lpf_active());
    s.increase_filter_cutoff();
    s.increase_filter_cutoff();
    assert_eq!(s.get_filter_cutoff_step(), 2);
}

#[test]
fn cutoff_tops_out_at_seven_steps() {
    let mut s = State::new();
    s.toggle_lpf();
    for _ in 0..20 {
        s.increase_filter_cutoff();
    }
    assert_eq!(s.get_filter_cutoff_step(), 7);
}

#[test]
fn cutoff_cannot_be_lowered_below_one_step() {
    let mut s = State::new();
    s.toggle_lpf();
    for _ in 0..3 {
        s.increase_filter_cutoff();
    }
    for _ in 0..10 {
        s.decrease_filter_cutoff();
    }
    assert_eq!(s.get_filter_cutoff_step(), 1);
}

#[test]
fn toggling_filter_resets_cutoff() {
    let mut s = State::new();
    s.toggle_lpf();
    s.increase_filter_cutoff();
    s.toggle_lpf();
    assert!(!s.is_lpf_active());
    assert_eq!(s.get_filter_cutoff_step(), 0);
}

#[test]
fn key_table_has_twelve_rows() {
    let m = get_key_mappings();
    assert_eq!(m.len(), 12);
    assert_eq!(m[0], (Key::Q, Note::C, 1, NOTE_C));
    assert_eq!(m[11], (Key::U, Note::B, 7, NOTE_B));
}

#[test]
fn key_positions() {
    let expected = [
        (Note::C, 1),
        (Note::CSharp, 1),
        (Note::D, 2),
        (Note::DSharp, 2),
        (Note::E, 3),
        (Note::F, 4),
        (Note::FSharp, 4),
        (Note::G, 5),
        (Note::GSharp, 5),
        (Note::A, 6),
        (Note::ASharp, 6),
        (Note::B, 7),
    ];
    for (note, pos) in expected.iter() {
        assert_eq!(get_key_position(note), Some(*pos));
    }
}

#[test]
fn note_sprite_indices() {
    let expected = [
        (Note::A, NOTE_A),
        (Note::ASharp, NOTE_A_SHARP),
        (Note::B, NOTE_B),
        (Note::C, NOTE_C),
        (Note::CSharp, NOTE_C_SHARP),
        (Note::D, NOTE_D),
        (Note::DSharp, NOTE_D_SHARP),
        (Note::E, NOTE_E),
        (Note::F, NOTE_F),
        (Note::FSharp, NOTE_F_SHARP),
        (Note::G, NOTE_G),
        (Note::GSharp, NOTE_G_SHARP),
    ];
    for (note, idx) in expected.iter() {
        assert_eq!(get_note_sprite_index(note), Some(*idx));
    }
}

#[test]
fn tangent_map_runs_left_to_right() {
    assert_eq!(
        create_tangent_map(),
        vec![(2, NOTE_C_SHARP), (3, NOTE_D_SHARP), (5, NOTE_F_SHARP), (6, NOTE_G_SHARP), (7, NOTE_A_SHARP)]
    );
}

#[test]
fn playing_key_records_note() {
    let mut s = State::new();
    let played = handle_key_presses(&mut s, &vec![Key::W]);
    assert_eq!(played, Some(Note::D));
    assert_eq!(s.get_pressed_key(), Some((Key::W, Note::D)));
    assert_eq!(s.get_current_octave(), 4);
}

#[test]
fn first_key_in_table_order_wins() {
    let mut s = State::new();
    let played = handle_key_presses(&mut s, &vec![Key::U, Key::Key5, Key::F2]);
    assert_eq!(played, Some(Note::FSharp));
    assert_eq!(s.get_pressed_key(), Some((Key::Key5, Note::FSharp)));
    // The control key of the same frame is not applied.
    assert_eq!(s.get_current_octave(), 4);
}

#[test]
fn control_keys_apply_without_playing() {
    let mut s = State::new();
    let played = handle_key_presses(&mut s, &vec![Key::F, Key::F2]);
    assert_eq!(played, None);
    assert_eq!(s.get_current_waveform(), Waveform::SQUARE);
    assert_eq!(s.get_current_octave(), 5);
    assert_eq!(s.get_pressed_key(), None);
    let played = handle_key_presses(&mut s, &vec![Key::F1]);
    assert_eq!(played, None);
    assert_eq!(s.get_current_octave(), 4);
}

#[test]
fn cutoff_keys_need_the_filter_on() {
    let mut s = State::new();
    handle_key_presses(&mut s, &vec![Key::F4]);
    assert_eq!(s.get_filter_cutoff_step(), 0);
    s.toggle_lpf();
    handle_key_presses(&mut s, &vec![Key::F4]);
    handle_key_presses(&mut s, &vec![Key::F4]);
    assert_eq!(s.get_filter_cutoff_step(), 2);
    handle_key_presses(&mut s, &vec![Key::F3]);
    assert_eq!(s.get_filter_cutoff_step(), 1);
}

#[test]
fn no_keys_changes_nothing() {
    let mut s = State::new();
    assert_eq!(handle_key_presses(&mut s, &vec![Key::Escape]), None);
    assert_eq!(s.get_current_octave(), 4);
    assert_eq!(s.get_current_waveform(), Waveform::SINE);
    assert_eq!(s.get_filter_cutoff_step(), 0);
}

#[test]
fn pressed_lookup() {
    let keys = vec![Key::Q, Key::F3];
    assert!(is_pressed(&keys, Key::F3));
    assert!(!is_pressed(&keys, Key::F4));
    assert!(!is_pressed(&vec![], Key::Q));
}

#[test]
fn display_frames_cycle() {
    assert_eq!(next_display_index(0), 1);
    assert_eq!(next_display_index(4), 5);
    assert_eq!(next_display_index(5), 0);
    assert_eq!(next_display_index(usize::MAX), (usize::MAX % 6 + 1) % 6);
}
