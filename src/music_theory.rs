//! Notes, octaves and the exact frequency of a note in a given octave.

use vstd::prelude::*;
use vstd::arithmetic::power2::{pow2, lemma_pow2_adds, lemma_pow2_pos};

verus! {

/// Lowest octave that the controls can select.
pub const OCTAVE_LOWER_BOUND: i32 = 1;

/// Highest octave that the controls can select.
pub const OCTAVE_UPPER_BOUND: i32 = 8;

/// The octave in which the reference frequencies of the note table apply.
pub const REFERENCE_OCTAVE: i32 = 4;

/// An octave number; octave 4 holds the reference frequencies.
#[derive(Clone, Copy, Debug, PartialEq, Eq, Structural)]
pub struct Octave {
    pub value: i32,
}

/// The twelve pitch classes of the chromatic scale, starting at C.
#[derive(Clone, Copy, Debug, PartialEq, Eq, Structural)]
pub enum Note {
    C,
    CSharp,
    D,
    DSharp,
    E,
    F,
    FSharp,
    G,
    GSharp,
    A,
    ASharp,
    B,
}

/// A frequency held exactly as a dyadic number of hundredths of a hertz:
/// its value is `centihertz / 2^halvings` hundredths of a hertz.
#[derive(Clone, Copy, Debug, PartialEq, Eq, Structural)]
pub struct Frequency {
    pub centihertz: u64,
    pub halvings: u32,
}

/// Equal-tempered frequency of each note in the reference octave, in
/// hundredths of a hertz (A = 440.00 Hz).
pub open spec fn base_centihertz_of(n: Note) -> nat {
    match n {
        Note::C => 26163,
        Note::CSharp => 27718,
        Note::D => 29366,
        Note::DSharp => 31113,
        Note::E => 32963,
        Note::F => 34923,
        Note::FSharp => 36999,
        Note::G => 39200,
        Note::GSharp => 41530,
        Note::A => 44000,
        Note::ASharp => 46616,
        Note::B => 49388,
    }
}

/// The frequency of note `n` in octave `o`: the reference frequency times
/// `2^(o - 4)`, kept exact by counting halvings for octaves below the reference.
pub open spec fn note_frequency(n: Note, o: int) -> Frequency {
    if o >= 4 {
        Frequency { centihertz: (base_centihertz_of(n) * pow2((o - 4) as nat)) as u64, halvings: 0 }
    } else {
        Frequency { centihertz: base_centihertz_of(n) as u64, halvings: (4 - o) as u32 }
    }
}

/// How a note is written on the display.
pub open spec fn note_label(n: Note) -> Seq<char> {
    match n {
        Note::C => seq!['C'],
        Note::CSharp => seq!['C', '#'],
        Note::D => seq!['D'],
        Note::DSharp => seq!['D', '#'],
        Note::E => seq!['E'],
        Note::F => seq!['F'],
        Note::FSharp => seq!['F', '#'],
        Note::G => seq!['G'],
        Note::GSharp => seq!['G', '#'],
        Note::A => seq!['A'],
        Note::ASharp => seq!['A', '#'],
        Note::B => seq!['B'],
    }
}

/// Every reference frequency shifted up by at most 48 octaves fits in 64 bits.
proof fn lemma_shifted_base_fits(n: Note, e: nat)
    requires
        e <= 48,
    ensures
        base_centihertz_of(n) * pow2(e) < 0x1_0000_0000_0000_0000,
{
    vstd::arithmetic::power2::lemma2_to64();
    vstd::arithmetic::power2::lemma2_to64_rest();
    lemma_pow2_adds(e, (48 - e) as nat);
    lemma_pow2_pos((48 - e) as nat);
    assert(base_centihertz_of(n) * pow2(e) < 0x1_0000_0000_0000_0000) by (nonlinear_arith)
        requires
            base_centihertz_of(n) < 0x10000,
            pow2(48) == pow2(e) * pow2((48 - e) as nat),
            pow2((48 - e) as nat) > 0,
            pow2(48) == 0x1000000000000,
    ;
}

/// In the reference octave a note sounds at exactly its published base
/// frequency, with nothing scaled.
pub proof fn lemma_reference_octave_is_base(n: Note)
    ensures
        note_frequency(n, REFERENCE_OCTAVE as int) == (Frequency {
            centihertz: base_centihertz_of(n) as u64,
            halvings: 0,
        }),
{
    vstd::arithmetic::power2::lemma2_to64();
}

/// Moving a note from the reference octave to octave `o` multiplies its
/// frequency by exactly `2^(o - 4)`.
pub proof fn lemma_octave_scales_by_power_of_two(n: Note, o: Octave)
    requires
        o.value <= 52,
    ensures
        note_frequency(n, o.value as int).equals_scaled(
            note_frequency(n, REFERENCE_OCTAVE as int),
            o.value - REFERENCE_OCTAVE,
        ),
{
    vstd::arithmetic::power2::lemma2_to64();
    let f4 = note_frequency(n, REFERENCE_OCTAVE as int);
    assert(f4.centihertz == base_centihertz_of(n));
    if o.value >= 4 {
        let e = (o.value - 4) as nat;
        lemma_shifted_base_fits(n, e);
        assert(note_frequency(n, o.value as int).centihertz == base_centihertz_of(n) * pow2(e));
        assert(note_frequency(n, o.value as int).centihertz * pow2(0) == f4.centihertz * pow2(e)
            * pow2(0));
    } else {
        let e = (4 - o.value) as nat;
        let fo = note_frequency(n, o.value as int);
        assert(fo.halvings as nat == e);
        assert(fo.centihertz * pow2(e) * pow2(0) == f4.centihertz * pow2(fo.halvings as nat));
    }
}

impl Frequency {
    /// `self` equals `base * 2^k` as exact numbers (compared by cross-multiplying
    /// away the halvings and the sign of `k`).
    pub open spec fn equals_scaled(self, base: Frequency, k: int) -> bool {
        if k >= 0 {
            self.centihertz * pow2(base.halvings as nat) == base.centihertz * pow2(k as nat) * pow2(
                self.halvings as nat,
            )
        } else {
            self.centihertz * pow2((-k) as nat) * pow2(base.halvings as nat) == base.centihertz
                * pow2(self.halvings as nat)
        }
    }
}

impl Note {
    /// Reference frequency of the note (octave 4), in hundredths of a hertz.
    pub fn base_centihertz(&self) -> (r: u64)
        ensures
            r == base_centihertz_of(*self),
    {
        match self {
            Note::C => 26163,
            Note::CSharp => 27718,
            Note::D => 29366,
            Note::DSharp => 31113,
            Note::E => 32963,
            Note::F => 34923,
            Note::FSharp => 36999,
            Note::G => 39200,
            Note::GSharp => 41530,
            Note::A => 44000,
            Note::ASharp => 46616,
            Note::B => 49388,
        }
    }

    /// Frequency of the note in `octave`: `base * 2^(octave - 4)`, exactly.
    /// Octaves above 52 would not fit the representation.
    pub fn frequency(&self, octave: &Octave) -> (r: Frequency)
        requires
            octave.value <= 52,
        ensures
            r == note_frequency(*self, octave.value as int),
    {
        let base = self.base_centihertz();
        if octave.value >= REFERENCE_OCTAVE {
            let steps = (octave.value - REFERENCE_OCTAVE) as u32;
            let mut c: u64 = base;
            let mut i: u32 = 0;
            proof {
                vstd::arithmetic::power2::lemma2_to64();
                assert(base < pow2(16));
            }
            while i < steps
                invariant
                    i <= steps,
                    steps <= 48,
                    c == base * pow2(i as nat),
                    c < pow2(16 + i as nat),
                decreases steps - i,
            {
                proof {
                    vstd::arithmetic::power2::lemma2_to64();
                    lemma_pow2_adds(i as nat, 1);
                    lemma_pow2_adds(16 + i as nat, 1);
                    lemma_pow2_adds(17 + i as nat, (47 - i) as nat);
                    lemma_pow2_pos((47 - i) as nat);
                    vstd::arithmetic::power2::lemma2_to64_rest();
                    assert(pow2(17 + i as nat) <= pow2(64)) by (nonlinear_arith)
                        requires
                            pow2(64) == pow2(17 + i as nat) * pow2((47 - i) as nat),
                            pow2((47 - i) as nat) > 0,
                    ;
                    assert(base * pow2(i as nat) * 2 == base * pow2(i as nat + 1)) by (nonlinear_arith)
                        requires
                            pow2(i as nat + 1) == pow2(i as nat) * 2,
                    ;
                }
                c = c * 2;
                i = i + 1;
            }
            Frequency { centihertz: c, halvings: 0 }
        } else {
            Frequency { centihertz: base, halvings: (4i64 - octave.value as i64) as u32 }
        }
    }

    /// The note as written on the display ("C", "C#", ...).
    pub fn name(&self) -> (r: &'static str)
        ensures
            r@ == note_label(*self),
    {
        proof {
            reveal_strlit("C");
            reveal_strlit("C#");
            reveal_strlit("D");
            reveal_strlit("D#");
            reveal_strlit("E");
            reveal_strlit("F");
            reveal_strlit("F#");
            reveal_strlit("G");
            reveal_strlit("G#");
            reveal_strlit("A");
            reveal_strlit("A#");
            reveal_strlit("B");
        }
        match self {
            Note::C => "C",
            Note::CSharp => "C#",
            Note::D => "D",
            Note::DSharp => "D#",
            Note::E => "E",
            Note::F => "F",
            Note::FSharp => "F#",
            Note::G => "G",
            Note::GSharp => "G#",
            Note::A => "A",
            Note::ASharp => "A#",
            Note::B => "B",
        }
    }
}

} // verus!
