//! The natural-note catalog: the seven letter-named pitches (white keys),
//! each with a fixed position in the canonical cyclic order A..G and a
//! fixed half-step (semitone) offset, plus accidentals and notes built
//! from a natural and an accidental.

use vstd::prelude::*;

verus! {

/// One of the seven natural note letters, a white key on a piano.
/// Exactly seven values exist; they carry no data of their own.
#[derive(Copy, Clone, PartialEq, Eq, Structural, Debug)]
pub enum Natural {
    A,
    B,
    C,
    D,
    E,
    F,
    G,
}

/// The canonical cyclic order of the seven natural letters: A, B, C, D,
/// E, F, G, wrapping back to A after G.
pub open spec fn canonical_order() -> Seq<Natural> {
    seq![
        Natural::A,
        Natural::B,
        Natural::C,
        Natural::D,
        Natural::E,
        Natural::F,
        Natural::G,
    ]
}

impl Natural {
    /// Index of this letter within the canonical order A..G.
    pub open spec fn spec_position(self) -> int {
        match self {
            Natural::A => 0,
            Natural::B => 1,
            Natural::C => 2,
            Natural::D => 3,
            Natural::E => 4,
            Natural::F => 5,
            Natural::G => 6,
        }
    }

    /// The letter character naming this natural.
    pub open spec fn spec_letter(self) -> char {
        match self {
            Natural::A => 'A',
            Natural::B => 'B',
            Natural::C => 'C',
            Natural::D => 'D',
            Natural::E => 'E',
            Natural::F => 'F',
            Natural::G => 'G',
        }
    }

    /// Half-step index: the letter's pitch offset in semitones, with A at 0.
    /// The spacing is non-uniform (whole steps except B-C and E-F) to
    /// mirror the piano's black-key layout.
    pub open spec fn spec_hstep_idx(self) -> int {
        match self {
            Natural::A => 0,
            Natural::B => 2,
            Natural::C => 3,
            Natural::D => 5,
            Natural::E => 7,
            Natural::F => 8,
            Natural::G => 10,
        }
    }

    /// Index of this letter within the canonical order A..G.
    pub fn position(self) -> (i: u8)
        ensures
            i as int == self.spec_position(),
    {
        match self {
            Natural::A => 0,
            Natural::B => 1,
            Natural::C => 2,
            Natural::D => 3,
            Natural::E => 4,
            Natural::F => 5,
            Natural::G => 6,
        }
    }

    /// The letter character naming this natural.
    pub fn letter(self) -> (c: char)
        ensures
            c == self.spec_letter(),
    {
        match self {
            Natural::A => 'A',
            Natural::B => 'B',
            Natural::C => 'C',
            Natural::D => 'D',
            Natural::E => 'E',
            Natural::F => 'F',
            Natural::G => 'G',
        }
    }

    /// Half-step index: the letter's pitch offset in semitones, with A at 0.
    pub fn hstep_idx(self) -> (i: i16)
        ensures
            i as int == self.spec_hstep_idx(),
    {
        match self {
            Natural::A => 0,
            Natural::B => 2,
            Natural::C => 3,
            Natural::D => 5,
            Natural::E => 7,
            Natural::F => 8,
            Natural::G => 10,
        }
    }
}

/// Every natural letter sits in the canonical order at its own position:
/// positions are in range and looking the position back up yields the
/// letter itself.
pub proof fn lemma_position_in_canonical_order(n: Natural)
    ensures
        0 <= n.spec_position() < canonical_order().len(),
        canonical_order()[n.spec_position()] == n,
{
}

/// The seven naturals in their canonical cyclic order, always the same
/// seven-element sequence.
pub fn all_naturals() -> (v: Vec<Natural>)
    ensures
        v@ == canonical_order(),
{
    let v = vec![
        Natural::A,
        Natural::B,
        Natural::C,
        Natural::D,
        Natural::E,
        Natural::F,
        Natural::G,
    ];
    v
}

/// A modification to a natural: a symbol and the number of half steps,
/// up or down, by which it shifts the natural's pitch.
#[derive(Copy, Clone, PartialEq, Eq, Structural, Debug)]
pub enum Accidental {
    DoubleFlat,
    Flat,
    Natural,
    Sharp,
    DoubleSharp,
}

impl Accidental {
    /// The printable symbol of this accidental.
    pub open spec fn spec_symbol(self) -> char {
        match self {
            Accidental::DoubleFlat => '𝄫',
            Accidental::Flat => '♭',
            Accidental::Natural => '♮',
            Accidental::Sharp => '♯',
            Accidental::DoubleSharp => '𝄪',
        }
    }

    /// How many half steps this accidental shifts a natural's pitch,
    /// negative for flats and positive for sharps.
    pub open spec fn spec_hstep_mod(self) -> int {
        match self {
            Accidental::DoubleFlat => -2,
            Accidental::Flat => -1,
            Accidental::Natural => 0,
            Accidental::Sharp => 1,
            Accidental::DoubleSharp => 2,
        }
    }

    /// The printable symbol of this accidental.
    pub fn symbol(self) -> (c: char)
        ensures
            c == self.spec_symbol(),
    {
        match self {
            Accidental::DoubleFlat => '𝄫',
            Accidental::Flat => '♭',
            Accidental::Natural => '♮',
            Accidental::Sharp => '♯',
            Accidental::DoubleSharp => '𝄪',
        }
    }

    /// How many half steps this accidental shifts a natural's pitch.
    pub fn hstep_mod(self) -> (i: i16)
        ensures
            i as int == self.spec_hstep_mod(),
    {
        match self {
            Accidental::DoubleFlat => -2,
            Accidental::Flat => -1,
            Accidental::Natural => 0,
            Accidental::Sharp => 1,
            Accidental::DoubleSharp => 2,
        }
    }
}

/// A note: a natural modified by an accidental. Its final half-step index
/// is the natural's half-step index shifted by the accidental.
#[derive(Copy, Clone, PartialEq, Eq, Structural, Debug)]
pub struct Note {
    pub natural: Natural,
    pub acc: Accidental,
    pub hstep_idx: i16,
}

impl Note {
    /// The stored half-step index is exactly the natural's offset shifted
    /// by the accidental.
    pub open spec fn wf(self) -> bool {
        self.hstep_idx == self.natural.spec_hstep_idx() + self.acc.spec_hstep_mod()
    }

    /// Builds the note of the given natural and accidental, computing its
    /// final half-step index.
    pub fn new(natural: Natural, acc: Accidental) -> (n: Note)
        ensures
            n.natural == natural,
            n.acc == acc,
            n.hstep_idx == natural.spec_hstep_idx() + acc.spec_hstep_mod(),
            n.wf(),
    {
        let hstep_idx = natural.hstep_idx() + acc.hstep_mod();
        Note { natural, acc, hstep_idx }
    }
}

} // verus!
