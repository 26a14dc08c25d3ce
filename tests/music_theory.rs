use synthesizer::music_theory::{Frequency, Note, Octave, OCTAVE_LOWER_BOUND, OCTAVE_UPPER_BOUND};
use synthesizer::waveforms::{Waveform, MONO, SAMPLE_RATE};

const ALL_NOTES: [Note; 12] = [
    Note::C,
    Note::CSharp,
    Note::D,
    Note::DSharp,
    Note::E,
    Note::F,
    Note::FSharp,
    Note::G,
    Note::GSharp,
    Note::A,
    Note::ASharp,
    Note::B,
];

const PUBLISHED_CENTIHERTZ: [u64; 12] = [
    26163, 27718, 29366, 31113, 32963, 34923, 36999, 39200, 41530, 44000, 46616, 49388,
];

fn to_hz(f: Frequency) -> f64 {
    f.centihertz as f64 / 100.0 / 2f64.powi(f.halvings as i32)
}

#[test]
fn reference_octave_gives_published_frequencies() {
    for (note, expected) in ALL_NOTES.iter().zip(PUBLISHED_CENTIHERTZ.iter()) {
        let f = note.frequency(&Octave { value: 4 });
        assert_eq!(f, Frequency { centihertz: *expected, halvings: 0 });
        assert_eq!(note.base_centihertz(), *expected);
    }
}

#[test]
fn a4_is_440_hz() {
    let f = Note::A.frequency(&Octave { value: 4 });
    assert_eq!(f.centihertz, 44000);
    assert_eq!(f.halvings, 0);
    assert!((to_hz(f) - 440.0).abs() < 1e-9);
}

#[test]
fn octave_above_doubles() {
    assert_eq!(
        Note::C.frequency(&Octave { value: 5 }),
        Frequency { centihertz: 52326, halvings: 0 }
    );
    assert_eq!(
        Note::A.frequency(&Octave { value: 8 }),
        Frequency { centihertz: 704000, halvings: 0 }
    );
}

#[test]
fn octave_below_halves() {
    assert_eq!(
        Note::A.frequency(&Octave { value: 3 }),
        Frequency { centihertz: 44000, halvings: 1 }
    );
    assert_eq!(
        Note::C.frequency(&Octave { value: 1 }),
        Frequency { centihertz: 26163, halvings: 3 }
    );
    assert!((to_hz(Note::A.frequency(&Octave { value: 3 })) - 220.0).abs() < 1e-9);
}

#[test]
fn every_octave_scales_by_power_of_two() {
    for note in ALL_NOTES.iter() {
        let base = to_hz(note.frequency(&Octave { value: 4 }));
        for o in OCTAVE_LOWER_BOUND..=OCTAVE_UPPER_BOUND {
            let f = to_hz(note.frequency(&Octave { value: o }));
            let expected = base * 2f64.powi(o - 4);
            assert!((f - expected).abs() < 1e-9 * expected);
        }
    }
}

#[test]
fn extreme_octaves() {
    assert_eq!(
        Note::B.frequency(&Octave { value: 52 }),
        Frequency { centihertz: 49388u64 << 48, halvings: 0 }
    );
    assert_eq!(
        Note::C.frequency(&Octave { value: i32::MIN }),
        Frequency { centihertz: 26163, halvings: (4i64 - i32::MIN as i64) as u32 }
    );
}

#[test]
fn note_names() {
    let names: Vec<&str> = ALL_NOTES.iter().map(|n| n.name()).collect();
    assert_eq!(names, vec!["C", "C#", "D", "D#", "E", "F", "F#", "G", "G#", "A", "A#", "B"]);
}

#[test]
fn waveform_names_and_toggle() {
    assert_eq!(Waveform::SINE.name(), "Sine");
    assert_eq!(Waveform::SQUARE.name(), "Square");
    assert_eq!(Waveform::SAW.name(), "Saw");
    assert_eq!(Waveform::SINE.toggle(), Waveform::SQUARE);
    assert_eq!(Waveform::SQUARE.toggle(), Waveform::SINE);
    assert_eq!(Waveform::SAW.toggle(), Waveform::SINE);
}

#[test]
fn output_format() {
    assert_eq!(SAMPLE_RATE, 48000);
    assert_eq!(MONO, 1);
}
