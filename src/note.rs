use vstd::prelude::*;

verus! {

/// One of the twelve pitch classes, in ascending order from C.
#[derive(Debug, Clone, Copy, PartialEq, Eq, Structural)]
pub enum Note {
    C,
    CSharp,
    D,
    DSharp,
    E,
    F,
    FSharp,
    G,
    GSharp,
    A,
    ASharp,
    B,
}

/// Number of pitch classes.
pub const NOTE_COUNT: u8 = 12;

impl Note {
    /// Position of the note from 1 (C) to 12 (B).
    pub open spec fn index_spec(self) -> int {
        match self {
            Note::C => 1,
            Note::CSharp => 2,
            Note::D => 3,
            Note::DSharp => 4,
            Note::E => 5,
            Note::F => 6,
            Note::FSharp => 7,
            Note::G => 8,
            Note::GSharp => 9,
            Note::A => 10,
            Note::ASharp => 11,
            Note::B => 12,
        }
    }

    /// Semitones between two notes.
    pub open spec fn distance_spec(self, b: Note) -> nat {
        let d = self.index_spec() - b.index_spec();
        if d < 0 { (-d) as nat } else { d as nat }
    }

    pub fn index(&self) -> (r: u8)
        ensures
            r == self.index_spec(),
            1 <= r <= 12,
    {
        match self {
            Note::C => 1,
            Note::CSharp => 2,
            Note::D => 3,
            Note::DSharp => 4,
            Note::E => 5,
            Note::F => 6,
            Note::FSharp => 7,
            Note::G => 8,
            Note::GSharp => 9,
            Note::A => 10,
            Note::ASharp => 11,
            Note::B => 12,
        }
    }

    pub fn distance(&self, b: Note) -> (r: u8)
        ensures
            r == self.distance_spec(b),
    {
        let a = self.index();
        let c = b.index();
        if a >= c {
            a - c
        } else {
            c - a
        }
    }

    /// Distance is symmetric, and zero exactly between equal notes.
    pub proof fn lemma_distance(self, b: Note)
        ensures
            self.distance_spec(b) == b.distance_spec(self),
            self.distance_spec(b) == 0 <==> self == b,
    {
    }
}

} // verus!
