use vstd::prelude::*;

use crate::note::Note;
use crate::LEVEL_MAX;

verus! {

/// A named scale: a fixed, ordered list of pitch classes.
#[derive(Debug, Clone, Copy, PartialEq, Eq, Structural)]
pub enum Scale {
    Chromatic,
    Major,
    Minor,
    Dorian,
    Mixolydian,
    Lydia,
    Phrygian,
    Locrian,
    Diminished,
    WholeHalf,
    WholeTone,
    MinorBlues,
    MinorPentatonic,
    MajorPentatonic,
    HarmonicMinor,
    MelodicMinor,
    SuperLocrian,
    Arabic,
    HungarianMinor,
    MinorGypsy,
    Hirojoshi,
    InSen,
    Japanese,
    Kumoi,
    Pelog,
    Spanish,
    Tritone,
    Prometheus,
    Augmented,
    Enigmatic,
}

/// Index into a list of `len` notes chosen by a control level: the level is
/// clamped to `0..=LEVEL_MAX`, scaled onto `0..=len - 1` and rounded half up.
pub open spec fn level_index(level: int, len: int) -> int {
    let l = if level > LEVEL_MAX { LEVEL_MAX as int } else { level };
    (l * (len - 1) + LEVEL_MAX / 2) / (LEVEL_MAX as int)
}

/// Some member of `notes` is `n`.
pub open spec fn contains_note(notes: Seq<Note>, n: Note) -> bool {
    exists|i: int| 0 <= i < notes.len() && notes[i] == n
}

/// `notes[k]` is at minimal distance from `input`, and no earlier member is as close.
pub open spec fn is_first_nearest(notes: Seq<Note>, input: Note, k: int) -> bool {
    &&& 0 <= k < notes.len()
    &&& forall|j: int|
        0 <= j < notes.len() ==> notes[k].distance_spec(input) <= #[trigger] notes[j].distance_spec(
            input,
        )
    &&& forall|j: int| 0 <= j < k ==> notes[k].distance_spec(input) < #[trigger] notes[j].distance_spec(input)
}

impl Scale {
    pub open spec fn notes_spec(self) -> Seq<Note> {
        match self {
            Scale::Chromatic => seq![Note::C, Note::CSharp, Note::D, Note::DSharp, Note::E, Note::F, Note::FSharp, Note::G, Note::GSharp, Note::A, Note::ASharp, Note::B],
            Scale::Major => seq![Note::C, Note::D, Note::E, Note::F, Note::G, Note::A, Note::B],
            Scale::Minor => seq![Note::C, Note::D, Note::DSharp, Note::F, Note::G, Note::GSharp, Note::ASharp],
            Scale::Dorian => seq![Note::C, Note::D, Note::DSharp, Note::F, Note::G, Note::A, Note::ASharp],
            Scale::Mixolydian => seq![Note::C, Note::D, Note::E, Note::F, Note::G, Note::A, Note::ASharp],
            Scale::Lydia => seq![Note::C, Note::D, Note::E, Note::GSharp, Note::G, Note::A, Note::B],
            Scale::Phrygian => seq![Note::C, Note::CSharp, Note::DSharp, Note::F, Note::G, Note::GSharp, Note::ASharp],
            Scale::Locrian => seq![Note::C, Note::CSharp, Note::DSharp, Note::E, Note::G, Note::GSharp, Note::ASharp],
            Scale::Diminished => seq![Note::C, Note::CSharp, Note::DSharp, Note::E, Note::GSharp, Note::G, Note::A, Note::ASharp],
            Scale::WholeHalf => seq![Note::C, Note::D, Note::DSharp, Note::F, Note::GSharp, Note::GSharp, Note::A, Note::B],
            Scale::WholeTone => seq![Note::C, Note::D, Note::E, Note::GSharp, Note::GSharp, Note::ASharp],
            Scale::MinorBlues => seq![Note::C, Note::DSharp, Note::F, Note::GSharp, Note::G, Note::ASharp],
            Scale::MinorPentatonic => seq![Note::C, Note::DSharp, Note::F, Note::G, Note::ASharp],
            Scale::MajorPentatonic => seq![Note::C, Note::D, Note::E, Note::G, Note::A],
            Scale::HarmonicMinor => seq![Note::C, Note::D, Note::DSharp, Note::F, Note::G, Note::GSharp, Note::B],
            Scale::MelodicMinor => seq![Note::C, Note::D, Note::DSharp, Note::F, Note::G, Note::A, Note::B],
            Scale::SuperLocrian => seq![Note::C, Note::CSharp, Note::DSharp, Note::E, Note::GSharp, Note::GSharp, Note::ASharp],
            Scale::Arabic => seq![Note::C, Note::CSharp, Note::E, Note::F, Note::G, Note::GSharp, Note::B],
            Scale::HungarianMinor => seq![Note::C, Note::D, Note::DSharp, Note::GSharp, Note::G, Note::GSharp, Note::B],
            Scale::MinorGypsy => seq![Note::C, Note::CSharp, Note::E, Note::F, Note::G, Note::GSharp, Note::ASharp],
            Scale::Hirojoshi => seq![Note::C, Note::D, Note::DSharp, Note::G, Note::GSharp],
            Scale::InSen => seq![Note::C, Note::CSharp, Note::F, Note::G, Note::ASharp],
            Scale::Japanese => seq![Note::C, Note::CSharp, Note::F, Note::GSharp, Note::ASharp],
            Scale::Kumoi => seq![Note::C, Note::D, Note::DSharp, Note::G, Note::A],
            Scale::Pelog => seq![Note::C, Note::CSharp, Note::DSharp, Note::E, Note::G, Note::GSharp],
            Scale::Spanish => seq![Note::C, Note::CSharp, Note::DSharp, Note::E, Note::F, Note::GSharp, Note::GSharp, Note::ASharp],
            Scale::Tritone => seq![Note::C, Note::CSharp, Note::E, Note::GSharp, Note::G, Note::ASharp],
            Scale::Prometheus => seq![Note::C, Note::D, Note::E, Note::GSharp, Note::A, Note::ASharp],
            Scale::Augmented => seq![Note::C, Note::DSharp, Note::E, Note::G, Note::GSharp, Note::B],
            Scale::Enigmatic => seq![Note::C, Note::CSharp, Note::E, Note::GSharp, Note::GSharp, Note::ASharp, Note::B],
        }
    }

    pub fn notes(self) -> (r: Vec<Note>)
        ensures
            r@ == self.notes_spec(),
            1 <= r@.len() <= 12,
    {
        match self {
            Scale::Chromatic => vec![Note::C, Note::CSharp, Note::D, Note::DSharp, Note::E, Note::F, Note::FSharp, Note::G, Note::GSharp, Note::A, Note::ASharp, Note::B],
            Scale::Major => vec![Note::C, Note::D, Note::E, Note::F, Note::G, Note::A, Note::B],
            Scale::Minor => vec![Note::C, Note::D, Note::DSharp, Note::F, Note::G, Note::GSharp, Note::ASharp],
            Scale::Dorian => vec![Note::C, Note::D, Note::DSharp, Note::F, Note::G, Note::A, Note::ASharp],
            Scale::Mixolydian => vec![Note::C, Note::D, Note::E, Note::F, Note::G, Note::A, Note::ASharp],
            Scale::Lydia => vec![Note::C, Note::D, Note::E, Note::GSharp, Note::G, Note::A, Note::B],
            Scale::Phrygian => vec![Note::C, Note::CSharp, Note::DSharp, Note::F, Note::G, Note::GSharp, Note::ASharp],
            Scale::Locrian => vec![Note::C, Note::CSharp, Note::DSharp, Note::E, Note::G, Note::GSharp, Note::ASharp],
            Scale::Diminished => vec![Note::C, Note::CSharp, Note::DSharp, Note::E, Note::GSharp, Note::G, Note::A, Note::ASharp],
            Scale::WholeHalf => vec![Note::C, Note::D, Note::DSharp, Note::F, Note::GSharp, Note::GSharp, Note::A, Note::B],
            Scale::WholeTone => vec![Note::C, Note::D, Note::E, Note::GSharp, Note::GSharp, Note::ASharp],
            Scale::MinorBlues => vec![Note::C, Note::DSharp, Note::F, Note::GSharp, Note::G, Note::ASharp],
            Scale::MinorPentatonic => vec![Note::C, Note::DSharp, Note::F, Note::G, Note::ASharp],
            Scale::MajorPentatonic => vec![Note::C, Note::D, Note::E, Note::G, Note::A],
            Scale::HarmonicMinor => vec![Note::C, Note::D, Note::DSharp, Note::F, Note::G, Note::GSharp, Note::B],
            Scale::MelodicMinor => vec![Note::C, Note::D, Note::DSharp, Note::F, Note::G, Note::A, Note::B],
            Scale::SuperLocrian => vec![Note::C, Note::CSharp, Note::DSharp, Note::E, Note::GSharp, Note::GSharp, Note::ASharp],
            Scale::Arabic => vec![Note::C, Note::CSharp, Note::E, Note::F, Note::G, Note::GSharp, Note::B],
            Scale::HungarianMinor => vec![Note::C, Note::D, Note::DSharp, Note::GSharp, Note::G, Note::GSharp, Note::B],
            Scale::MinorGypsy => vec![Note::C, Note::CSharp, Note::E, Note::F, Note::G, Note::GSharp, Note::ASharp],
            Scale::Hirojoshi => vec![Note::C, Note::D, Note::DSharp, Note::G, Note::GSharp],
            Scale::InSen => vec![Note::C, Note::CSharp, Note::F, Note::G, Note::ASharp],
            Scale::Japanese => vec![Note::C, Note::CSharp, Note::F, Note::GSharp, Note::ASharp],
            Scale::Kumoi => vec![Note::C, Note::D, Note::DSharp, Note::G, Note::A],
            Scale::Pelog => vec![Note::C, Note::CSharp, Note::DSharp, Note::E, Note::G, Note::GSharp],
            Scale::Spanish => vec![Note::C, Note::CSharp, Note::DSharp, Note::E, Note::F, Note::GSharp, Note::GSharp, Note::ASharp],
            Scale::Tritone => vec![Note::C, Note::CSharp, Note::E, Note::GSharp, Note::G, Note::ASharp],
            Scale::Prometheus => vec![Note::C, Note::D, Note::E, Note::GSharp, Note::A, Note::ASharp],
            Scale::Augmented => vec![Note::C, Note::DSharp, Note::E, Note::G, Note::GSharp, Note::B],
            Scale::Enigmatic => vec![Note::C, Note::CSharp, Note::E, Note::GSharp, Note::GSharp, Note::ASharp, Note::B],
        }
    }

    /// The member of the scale nearest to `input`: `input` itself when it is a
    /// member, else the first member, in the scale's order, at the least distance.
    pub fn quantize(self, input: Note) -> (r: Note)
        ensures
            contains_note(self.notes_spec(), input) ==> r == input,
            !contains_note(self.notes_spec(), input) ==> exists|k: int|
                is_first_nearest(self.notes_spec(), input, k) && r == self.notes_spec()[k],
    {
        let notes = self.notes();
        let mut min_distance: u8 = u8::MAX;
        let mut output = input;
        let ghost mut best: int = 0;
        let mut i: usize = 0;
        while i < notes.len()
            invariant
                notes@ == self.notes_spec(),
                1 <= notes@.len() <= 12,
                i <= notes@.len(),
                forall|j: int| 0 <= j < i ==> notes@[j] != input,
                i == 0 ==> min_distance == u8::MAX,
                i > 0 ==> {
                    &&& 0 <= best < i
                    &&& output == notes@[best]
                    &&& min_distance == notes@[best].distance_spec(input)
                    &&& forall|j: int|
                        0 <= j < i ==> min_distance <= #[trigger] notes@[j].distance_spec(input)
                    &&& forall|j: int| 0 <= j < best ==> min_distance < #[trigger] notes@[j].distance_spec(input)
                },
            decreases notes@.len() - i,
        {
            let note = notes[i];
            let distance = note.distance(input);
            if distance == 0 {
                return input;
            }
            if distance < min_distance {
                min_distance = distance;
                output = note;
                proof {
                    best = i as int;
                }
            }
            i = i + 1;
        }
        assert(is_first_nearest(self.notes_spec(), input, best));
        output
    }

    /// The member at `level_index(level, n)`, where `n` is the number of members:
    /// a level of 0 picks the first member and a level of `LEVEL_MAX` or more the last.
    pub fn quantize_level(self, level: u32) -> (r: Note)
        ensures
            r == self.notes_spec()[level_index(level as int, self.notes_spec().len() as int)],
    {
        let notes = self.notes();
        let max_index: u32 = (notes.len() - 1) as u32;
        let clamped: u32 = if level > LEVEL_MAX { LEVEL_MAX } else { level };
        proof {
            lemma_level_index_bounds(clamped as int, max_index as int);
        }
        let index: u32 = (clamped * max_index + LEVEL_MAX / 2) / LEVEL_MAX;
        notes[index as usize]
    }
}

proof fn lemma_level_index_bounds(l: int, m: int)
    requires
        0 <= l <= LEVEL_MAX,
        0 <= m <= 11,
    ensures
        0 <= l * m <= LEVEL_MAX * m,
        l * m + LEVEL_MAX / 2 <= u32::MAX,
        0 <= (l * m + LEVEL_MAX / 2) / (LEVEL_MAX as int) <= m,
{
    assert(0 <= l * m <= LEVEL_MAX * m) by (nonlinear_arith)
        requires
            0 <= l <= LEVEL_MAX,
            0 <= m,
    ;
    assert((l * m + LEVEL_MAX / 2) / (LEVEL_MAX as int) <= m) by (nonlinear_arith)
        requires
            0 <= l * m <= LEVEL_MAX * m,
    ;
}

/// A level of 0 picks the first note of every scale, and any level from
/// `LEVEL_MAX` up picks the last.
pub proof fn lemma_level_ends(scale: Scale, level: u32)
    requires
        level >= LEVEL_MAX,
    ensures
        level_index(0, scale.notes_spec().len() as int) == 0,
        level_index(level as int, scale.notes_spec().len() as int) == scale.notes_spec().len() - 1,
{
    let m = scale.notes_spec().len() - 1;
    assert((LEVEL_MAX * m + LEVEL_MAX / 2) / (LEVEL_MAX as int) == m) by (nonlinear_arith)
        requires
            0 <= m,
    ;
}

} // verus!
