use metro_core::scale::Scale;
use metro_core::{Note, LEVEL_MAX};

const ALL_SCALES: [Scale; 30] = [
    Scale::Chromatic,
    Scale::Major,
    Scale::Minor,
    Scale::Dorian,
    Scale::Mixolydian,
    Scale::Lydia,
    Scale::Phrygian,
    Scale::Locrian,
    Scale::Diminished,
    Scale::WholeHalf,
    Scale::WholeTone,
    Scale::MinorBlues,
    Scale::MinorPentatonic,
    Scale::MajorPentatonic,
    Scale::HarmonicMinor,
    Scale::MelodicMinor,
    Scale::SuperLocrian,
    Scale::Arabic,
    Scale::HungarianMinor,
    Scale::MinorGypsy,
    Scale::Hirojoshi,
    Scale::InSen,
    Scale::Japanese,
    Scale::Kumoi,
    Scale::Pelog,
    Scale::Spanish,
    Scale::Tritone,
    Scale::Prometheus,
    Scale::Augmented,
    Scale::Enigmatic,
];

#[test]
fn note_index_and_distance() {
    assert_eq!(1, Note::C.index());
    assert_eq!(12, Note::B.index());
    assert_eq!(8, Note::G.index());
    assert_eq!(11, Note::C.distance(Note::B));
    assert_eq!(11, Note::B.distance(Note::C));
    assert_eq!(0, Note::FSharp.distance(Note::FSharp));
    assert_eq!(3, Note::A.distance(Note::FSharp));
}

#[test]
fn scale_notes() {
    assert_eq!(12, Scale::Chromatic.notes().len());
    assert_eq!(
        vec![Note::C, Note::DSharp, Note::F, Note::GSharp, Note::G, Note::ASharp],
        Scale::MinorBlues.notes()
    );
    assert_eq!(vec![Note::C, Note::D, Note::E, Note::G, Note::A], Scale::MajorPentatonic.notes());
}

#[test]
fn quantize_keeps_members() {
    for scale in ALL_SCALES {
        assert_eq!(Note::C, scale.quantize(Note::C));
        for note in scale.notes() {
            assert_eq!(note, scale.quantize(note));
        }
    }
}

#[test]
fn quantize_picks_nearest_first_on_ties() {
    let blues = Scale::MinorBlues;
    assert_eq!(Note::DSharp, blues.quantize(Note::D));
    assert_eq!(Note::C, blues.quantize(Note::CSharp));
    // E lies one from D# and from F: D# comes first.
    assert_eq!(Note::DSharp, blues.quantize(Note::E));
    assert_eq!(Note::ASharp, blues.quantize(Note::B));
    assert_eq!(Note::F, blues.quantize(Note::F));
    assert_eq!(Note::C, Scale::Major.quantize(Note::CSharp));
    assert_eq!(Note::A, Scale::MajorPentatonic.quantize(Note::B));
    assert_eq!(Note::E, Scale::MajorPentatonic.quantize(Note::F));
}

#[test]
fn quantize_level_ends() {
    for scale in ALL_SCALES {
        let notes = scale.notes();
        assert_eq!(notes[0], scale.quantize_level(0));
        assert_eq!(notes[notes.len() - 1], scale.quantize_level(LEVEL_MAX));
        assert_eq!(notes[notes.len() - 1], scale.quantize_level(u32::MAX));
    }
}

#[test]
fn quantize_level_rounds_half_up() {
    let scale = Scale::MajorPentatonic;
    assert_eq!(Note::E, scale.quantize_level(LEVEL_MAX / 2));
    // One eighth of the range lies halfway between the first and second notes.
    assert_eq!(Note::D, scale.quantize_level(LEVEL_MAX / 8));
    assert_eq!(Note::C, scale.quantize_level(LEVEL_MAX / 8 - 1));
    assert_eq!(Note::G, scale.quantize_level(LEVEL_MAX / 4 * 3));
}
