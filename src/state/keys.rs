//! The computer keys that the synthesizer reads, and the layout of the
//! on-screen keyboard: which key plays which note, where the note's key sits
//! and which sprite names it.

use vstd::prelude::*;
use crate::music_theory::Note;
use crate::graphics::{
    NOTE_A, NOTE_A_SHARP, NOTE_B, NOTE_C, NOTE_C_SHARP, NOTE_D, NOTE_D_SHARP, NOTE_E, NOTE_F,
    NOTE_F_SHARP, NOTE_G, NOTE_G_SHARP,
};

verus! {

/// A key of the computer keyboard that the synthesizer reacts to.
#[derive(Clone, Copy, Debug, PartialEq, Eq, Structural)]
pub enum Key {
    Q,
    Key2,
    W,
    Key3,
    E,
    R,
    Key5,
    T,
    Key6,
    Y,
    Key7,
    U,
    F,
    F1,
    F2,
    F3,
    F4,
    Escape,
}

/// The playing keys in the order in which they are checked: each with its note,
/// the position of the note's white key (a sharp shares the position of the
/// white key to its left) and the note's sprite index.
pub open spec fn key_mappings() -> Seq<(Key, Note, usize, usize)> {
    seq![
        (Key::Q, Note::C, 1usize, NOTE_C),
        (Key::Key2, Note::CSharp, 1usize, NOTE_C_SHARP),
        (Key::W, Note::D, 2usize, NOTE_D),
        (Key::Key3, Note::DSharp, 2usize, NOTE_D_SHARP),
        (Key::E, Note::E, 3usize, NOTE_E),
        (Key::R, Note::F, 4usize, NOTE_F),
        (Key::Key5, Note::FSharp, 4usize, NOTE_F_SHARP),
        (Key::T, Note::G, 5usize, NOTE_G),
        (Key::Key6, Note::GSharp, 5usize, NOTE_G_SHARP),
        (Key::Y, Note::A, 6usize, NOTE_A),
        (Key::Key7, Note::ASharp, 6usize, NOTE_A_SHARP),
        (Key::U, Note::B, 7usize, NOTE_B),
    ]
}

/// Position on the keyboard of the white key that a note is drawn on.
pub open spec fn key_position_of(n: Note) -> usize {
    match n {
        Note::C | Note::CSharp => 1,
        Note::D | Note::DSharp => 2,
        Note::E => 3,
        Note::F | Note::FSharp => 4,
        Note::G | Note::GSharp => 5,
        Note::A | Note::ASharp => 6,
        Note::B => 7,
    }
}

/// Index of the sprite that names a note.
pub open spec fn note_sprite_index_of(n: Note) -> usize {
    match n {
        Note::A => NOTE_A,
        Note::ASharp => NOTE_A_SHARP,
        Note::B => NOTE_B,
        Note::C => NOTE_C,
        Note::CSharp => NOTE_C_SHARP,
        Note::D => NOTE_D,
        Note::DSharp => NOTE_D_SHARP,
        Note::E => NOTE_E,
        Note::F => NOTE_F,
        Note::FSharp => NOTE_F_SHARP,
        Note::G => NOTE_G,
        Note::GSharp => NOTE_G_SHARP,
    }
}

/// Whether a note is one of the seven naturals (a white key).
pub open spec fn is_natural(n: Note) -> bool {
    match n {
        Note::A | Note::B | Note::C | Note::D | Note::E | Note::F | Note::G => true,
        _ => false,
    }
}

/// The tangents (black keys): the white-key position each one is centred on,
/// with the sprite index of the sharp it plays, from left to right.
pub open spec fn tangent_map() -> Seq<(i32, usize)> {
    seq![
        (2i32, NOTE_C_SHARP),
        (3i32, NOTE_D_SHARP),
        (5i32, NOTE_F_SHARP),
        (6i32, NOTE_G_SHARP),
        (7i32, NOTE_A_SHARP),
    ]
}

/// The table of playing keys, in the order in which they are checked.
pub fn get_key_mappings() -> (r: Vec<(Key, Note, usize, usize)>)
    ensures
        r@ == key_mappings(),
{
    let r = vec![
        (Key::Q, Note::C, 1, NOTE_C),
        (Key::Key2, Note::CSharp, 1, NOTE_C_SHARP),
        (Key::W, Note::D, 2, NOTE_D),
        (Key::Key3, Note::DSharp, 2, NOTE_D_SHARP),
        (Key::E, Note::E, 3, NOTE_E),
        (Key::R, Note::F, 4, NOTE_F),
        (Key::Key5, Note::FSharp, 4, NOTE_F_SHARP),
        (Key::T, Note::G, 5, NOTE_G),
        (Key::Key6, Note::GSharp, 5, NOTE_G_SHARP),
        (Key::Y, Note::A, 6, NOTE_A),
        (Key::Key7, Note::ASharp, 6, NOTE_A_SHARP),
        (Key::U, Note::B, 7, NOTE_B),
    ];
    assert(r@ =~= key_mappings());
    r
}

/// The row of the key table that holds note `n`.
spec fn mapping_row(n: Note) -> int {
    match n {
        Note::C => 0,
        Note::CSharp => 1,
        Note::D => 2,
        Note::DSharp => 3,
        Note::E => 4,
        Note::F => 5,
        Note::FSharp => 6,
        Note::G => 7,
        Note::GSharp => 8,
        Note::A => 9,
        Note::ASharp => 10,
        Note::B => 11,
    }
}

/// Every note has exactly one row in the key table, and that row holds the
/// note's key position and sprite index.
proof fn lemma_mapping_row(n: Note)
    ensures
        0 <= mapping_row(n) < 12,
        key_mappings()[mapping_row(n)].1 == n,
        key_mappings()[mapping_row(n)].2 == key_position_of(n),
        key_mappings()[mapping_row(n)].3 == note_sprite_index_of(n),
        forall|j: int| 0 <= j < mapping_row(n) ==> key_mappings()[j].1 != n,
{
}

/// Position of the white key that `note` is played on; every note has one.
pub fn get_key_position(note: &Note) -> (r: Option<usize>)
    ensures
        r == Some(key_position_of(*note)),
{
    let mappings = get_key_mappings();
    proof {
        lemma_mapping_row(*note);
    }
    let mut i: usize = 0;
    while i < mappings.len()
        invariant
            mappings@ == key_mappings(),
            0 <= i <= mapping_row(*note) < 12,
            key_mappings()[mapping_row(*note)].1 == *note,
            key_mappings()[mapping_row(*note)].2 == key_position_of(*note),
            key_mappings()[mapping_row(*note)].3 == note_sprite_index_of(*note),
            forall|j: int| 0 <= j < mapping_row(*note) ==> key_mappings()[j].1 != *note,
        decreases mappings.len() - i,
    {
        let (_, mapped_note, position, _) = mappings[i];
        if mapped_note == *note {
            return Some(position);
        }
        i = i + 1;
    }
    None
}

/// Index of the sprite that names `note`; every note has one.
pub fn get_note_sprite_index(note: &Note) -> (r: Option<usize>)
    ensures
        r == Some(note_sprite_index_of(*note)),
{
    let mappings = get_key_mappings();
    proof {
        lemma_mapping_row(*note);
    }
    let mut i: usize = 0;
    while i < mappings.len()
        invariant
            mappings@ == key_mappings(),
            0 <= i <= mapping_row(*note) < 12,
            key_mappings()[mapping_row(*note)].1 == *note,
            key_mappings()[mapping_row(*note)].2 == key_position_of(*note),
            key_mappings()[mapping_row(*note)].3 == note_sprite_index_of(*note),
            forall|j: int| 0 <= j < mapping_row(*note) ==> key_mappings()[j].1 != *note,
        decreases mappings.len() - i,
    {
        let (_, mapped_note, _, sprite_index) = mappings[i];
        if mapped_note == *note {
            return Some(sprite_index);
        }
        i = i + 1;
    }
    None
}

/// The tangents from left to right: the position each is centred on and the
/// sprite index of its sharp.
pub fn create_tangent_map() -> (r: Vec<(i32, usize)>)
    ensures
        r@ == tangent_map(),
{
    let r = vec![
        (2, NOTE_C_SHARP),
        (3, NOTE_D_SHARP),
        (5, NOTE_F_SHARP),
        (6, NOTE_G_SHARP),
        (7, NOTE_A_SHARP),
    ];
    assert(r@ =~= tangent_map());
    r
}

} // verus!
