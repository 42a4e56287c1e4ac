use fretboard::guitar::{Guitar, Tuning};
use fretboard::theory::Note;

const NOTES: [Note; 12] = [
    Note::C,
    Note::Db,
    Note::D,
    Note::Eb,
    Note::E,
    Note::F,
    Note::Gb,
    Note::G,
    Note::Ab,
    Note::A,
    Note::Bb,
    Note::B,
];

#[test]
fn standard_tuning_strings() {
    assert_eq!(
        Guitar::new(Tuning::EADGBE).strings(),
        vec![Note::E, Note::A, Note::D, Note::G, Note::B, Note::E]
    );
}

#[test]
fn other_tuning_strings() {
    assert_eq!(
        Guitar::new(Tuning::DADGBE).strings(),
        vec![Note::D, Note::A, Note::D, Note::G, Note::B, Note::E]
    );
    assert_eq!(
        Guitar::new(Tuning::CGCFAD).strings(),
        vec![Note::C, Note::G, Note::C, Note::F, Note::A, Note::D]
    );
}

#[test]
fn tuning_names() {
    assert_eq!(Tuning::EADGBE.name(), "EADGBE");
    assert_eq!(Tuning::DADGBE.name(), "DADGBE");
    assert_eq!(Tuning::CGCFAD.name(), "CGCFAD");
    assert_eq!(Guitar::new(Tuning::CGCFAD).tuning, Tuning::CGCFAD);
}

#[test]
fn named_frets() {
    assert_eq!(Guitar::derive_fret(Note::E, Note::E), 0);
    assert_eq!(Guitar::derive_fret(Note::E, Note::G), 3);
    assert_eq!(Guitar::derive_fret(Note::A, Note::C), 3);
}

#[test]
fn frets_wrap_below_the_open_string() {
    assert_eq!(Guitar::derive_fret(Note::B, Note::C), 1);
    assert_eq!(Guitar::derive_fret(Note::C, Note::B), 11);
    assert_eq!(Guitar::derive_fret(Note::G, Note::Gb), 11);
    assert_eq!(Guitar::derive_fret(Note::E, Note::Eb), 11);
    assert_eq!(Guitar::derive_fret(Note::E, Note::C), 8);
    assert_eq!(Guitar::derive_fret(Note::D, Note::A), 7);
}

#[test]
fn fretting_at_the_derived_fret_sounds_the_note() {
    for string in NOTES {
        for want in NOTES {
            let fret = Guitar::derive_fret(string, want);
            assert!((0..12).contains(&fret));
            assert_eq!(string.derive(fret), Ok(want));
        }
    }
}

#[test]
fn frets_reduce_to_the_first_octave() {
    assert_eq!(Guitar::normalise_fret(0), 0);
    assert_eq!(Guitar::normalise_fret(11), 11);
    assert_eq!(Guitar::normalise_fret(12), 0);
    assert_eq!(Guitar::normalise_fret(13), 1);
    assert_eq!(Guitar::normalise_fret(15), 3);
    assert_eq!(Guitar::normalise_fret(27), 3);
    assert_eq!(Guitar::normalise_fret(i32::MAX), 7);
}

#[test]
fn negative_frets_reduce_into_range() {
    assert_eq!(Guitar::normalise_fret(-1), 11);
    assert_eq!(Guitar::normalise_fret(-12), 0);
    assert_eq!(Guitar::normalise_fret(-13), 11);
    assert_eq!(Guitar::normalise_fret(i32::MIN), 4);
}

#[test]
fn string_numbers_count_from_one() {
    let guitar = Guitar::new(Tuning::EADGBE);
    assert_eq!(guitar.derive_string(Note::D), 3);
    assert_eq!(guitar.derive_string(Note::E), 1);
    assert_eq!(guitar.derive_string(Note::A), 2);
    assert_eq!(guitar.derive_string(Note::G), 4);
    assert_eq!(guitar.derive_string(Note::B), 5);
}

#[test]
fn string_numbers_take_the_first_of_equal_strings() {
    let dropped = Guitar::new(Tuning::DADGBE);
    assert_eq!(dropped.derive_string(Note::D), 1);
    assert_eq!(dropped.derive_string(Note::E), 6);
    let low = Guitar::new(Tuning::CGCFAD);
    assert_eq!(low.derive_string(Note::C), 1);
    assert_eq!(low.derive_string(Note::G), 2);
    assert_eq!(low.derive_string(Note::F), 4);
    assert_eq!(low.derive_string(Note::A), 5);
    assert_eq!(low.derive_string(Note::D), 6);
}

#[test]
fn only_tuned_notes_have_a_string() {
    let guitar = Guitar::new(Tuning::EADGBE);
    for note in NOTES {
        let tuned = guitar.strings().contains(&note);
        assert_eq!(guitar.has_string(note), tuned);
        if tuned {
            let number = guitar.derive_string(note);
            assert_eq!(guitar.strings()[(number - 1) as usize], note);
        }
    }
    assert!(guitar.has_string(Note::B));
    assert!(!guitar.has_string(Note::C));
    assert!(Guitar::new(Tuning::CGCFAD).has_string(Note::C));
    assert!(!Guitar::new(Tuning::CGCFAD).has_string(Note::E));
}
