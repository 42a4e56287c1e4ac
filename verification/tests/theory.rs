use fretboard::text::{chars_of, fold, lower_char, push_decimal, push_digits, spells};
use fretboard::theory::{
    Class, Degree, Interval, IntervalError, Mode, ModeError, Note, NoteError, Scale, DIATONIC,
};

const NOTES: [Note; 12] = [
    Note::C,
    Note::Db,
    Note::D,
    Note::Eb,
    Note::E,
    Note::F,
    Note::Gb,
    Note::G,
    Note::Ab,
    Note::A,
    Note::Bb,
    Note::B,
];

const DEGREES: [Degree; 7] = [
    Degree::Tonic,
    Degree::Supertonic,
    Degree::Mediant,
    Degree::Subdominant,
    Degree::Dominant,
    Degree::Submediant,
    Degree::Subtonic,
];

const MODES: [Mode; 7] = [
    Mode::Ionian,
    Mode::Dorian,
    Mode::Phrygian,
    Mode::Lydian,
    Mode::Mixolydian,
    Mode::Aeolian,
    Mode::Locrian,
];

fn scale_notes(mode: Mode, key: Note) -> Vec<Note> {
    let scale = Scale::new(Class::Heptatonic(&DIATONIC, mode), key).unwrap();
    DEGREES.iter().map(|d| scale.note(*d)).collect()
}

#[test]
fn note_names_round_trip() {
    for note in NOTES {
        assert_eq!(Note::parse(note.name().as_str()), Ok(note));
        assert_eq!(note.name().parse::<Note>(), Ok(note));
    }
}

#[test]
fn note_names_are_canonical_flats() {
    let names: Vec<String> = NOTES.iter().map(|n| n.name()).collect();
    assert_eq!(
        names,
        vec!["C", "Db", "D", "Eb", "E", "F", "Gb", "G", "Ab", "A", "Bb", "B"]
    );
}

#[test]
fn note_positions_count_semitones_from_c() {
    for (i, note) in NOTES.iter().enumerate() {
        assert_eq!(note.index() as usize, i);
        assert_eq!(Note::from_index(i as u8), *note);
    }
    assert_eq!(Note::from_index(12), Note::C);
    assert_eq!(Note::from_index(255), Note::Eb);
}

#[test]
fn sharps_read_as_flats() {
    assert_eq!(Note::parse("c#"), Ok(Note::Db));
    assert_eq!(Note::parse("db"), Ok(Note::Db));
    assert_eq!(Note::parse("d#"), Ok(Note::Eb));
    assert_eq!(Note::parse("eb"), Ok(Note::Eb));
    assert_eq!(Note::parse("f#"), Ok(Note::Gb));
    assert_eq!(Note::parse("gb"), Ok(Note::Gb));
    assert_eq!(Note::parse("g#"), Ok(Note::Ab));
    assert_eq!(Note::parse("ab"), Ok(Note::Ab));
    assert_eq!(Note::parse("a#"), Ok(Note::Bb));
    assert_eq!(Note::parse("bb"), Ok(Note::Bb));
}

#[test]
fn naturals_read_in_any_case() {
    assert_eq!(Note::parse("c"), Ok(Note::C));
    assert_eq!(Note::parse("D"), Ok(Note::D));
    assert_eq!(Note::parse("e"), Ok(Note::E));
    assert_eq!(Note::parse("F"), Ok(Note::F));
    assert_eq!(Note::parse("g"), Ok(Note::G));
    assert_eq!(Note::parse("A"), Ok(Note::A));
    assert_eq!(Note::parse("b"), Ok(Note::B));
    assert_eq!(Note::parse("DB"), Ok(Note::Db));
    assert_eq!(Note::parse("C#"), Ok(Note::Db));
    assert_eq!(Note::parse("bB"), Ok(Note::Bb));
}

#[test]
fn other_texts_are_notation_errors() {
    for text in ["", "h", "xyz", "cb", "e#", "b#", "fb", "c ", " c", "cc", "c##", "\u{212a}"] {
        assert_eq!(Note::parse(text), Err(NoteError::NotationError), "{:?}", text);
        assert_eq!(text.parse::<Note>(), Err(NoteError::NotationError));
    }
}

#[test]
fn lower_case_names_only_in_from_lower() {
    assert_eq!(Note::from_lower(&vec!['d', 'b']), Ok(Note::Db));
    assert_eq!(Note::from_lower(&vec!['D', 'b']), Err(NoteError::NotationError));
    assert_eq!(Mode::from_lower(&"dorian".chars().collect()), Ok(Mode::Dorian));
    assert_eq!(
        Mode::from_lower(&"Dorian".chars().collect()),
        Err(ModeError::UnrecognisedMode)
    );
    assert_eq!(Interval::from_lower(&"tone".chars().collect()), Ok(Interval::Whole));
    assert_eq!(
        Interval::from_lower(&"Tone".chars().collect()),
        Err(IntervalError::UnrecognisedInterval)
    );
}

#[test]
fn transposing_by_nothing_or_an_octave_changes_nothing() {
    for note in NOTES {
        assert_eq!(note.derive(0), Ok(note));
        assert_eq!(note.derive(12), Ok(note));
        assert_eq!(note.derive(-12), Ok(note));
        assert_eq!(note.derive(24), Ok(note));
    }
}

#[test]
fn transposing_steps_around_the_circle() {
    assert_eq!(Note::C.derive(1), Ok(Note::Db));
    assert_eq!(Note::C.derive(2), Ok(Note::D));
    assert_eq!(Note::B.derive(1), Ok(Note::C));
    assert_eq!(Note::B.derive(2), Ok(Note::Db));
    assert_eq!(Note::E.derive(3), Ok(Note::G));
    assert_eq!(Note::A.derive(3), Ok(Note::C));
    assert_eq!(Note::G.derive(11), Ok(Note::Gb));
    assert_eq!(Note::Ab.derive(100), Ok(Note::C));
}

#[test]
fn transposing_downwards_wraps_too() {
    assert_eq!(Note::C.derive(-1), Ok(Note::B));
    assert_eq!(Note::D.derive(-3), Ok(Note::B));
    assert_eq!(Note::E.derive(-25), Ok(Note::Eb));
}

#[test]
fn transposing_by_extreme_offsets() {
    assert_eq!(Note::B.derive(i32::MAX), Ok(Note::Gb));
    assert_eq!(Note::C.derive(i32::MIN), Ok(Note::E));
    assert_eq!(Note::B.derive(i32::MIN), Ok(Note::Eb));
}

#[test]
fn transposing_twice_adds_the_offsets() {
    for note in NOTES {
        for a in -13..14 {
            for b in -13..14 {
                let once = note.derive(a + b).unwrap();
                let twice = note.derive(a).unwrap().derive(b).unwrap();
                assert_eq!(once, twice);
            }
        }
    }
}

#[test]
fn interval_widths() {
    assert_eq!(Interval::Identity.semitones(), 0);
    assert_eq!(Interval::Half.semitones(), 1);
    assert_eq!(Interval::Whole.semitones(), 2);
}

#[test]
fn interval_names() {
    assert_eq!(Interval::parse("half"), Ok(Interval::Half));
    assert_eq!(Interval::parse("semitone"), Ok(Interval::Half));
    assert_eq!(Interval::parse("whole"), Ok(Interval::Whole));
    assert_eq!(Interval::parse("tone"), Ok(Interval::Whole));
    assert_eq!(Interval::parse("WHOLE"), Ok(Interval::Whole));
    assert_eq!(Interval::parse("SemiTone"), Ok(Interval::Half));
    assert_eq!("Half".parse::<Interval>(), Ok(Interval::Half));
    assert_eq!(Interval::Identity.name(), "Identity");
    assert_eq!(Interval::Half.name(), "Half");
    assert_eq!(Interval::Whole.name(), "Whole");
}

#[test]
fn unknown_interval_names() {
    for text in ["", "identity", "unison", "halfstep", "2", "whole "] {
        assert_eq!(Interval::parse(text), Err(IntervalError::UnrecognisedInterval));
    }
}

#[test]
fn mode_names_round_trip() {
    let names = [
        "Ionian",
        "Dorian",
        "Phrygian",
        "Lydian",
        "Mixolydian",
        "Aeolian",
        "Locrian",
    ];
    for (i, mode) in MODES.iter().enumerate() {
        assert_eq!(mode.index(), i);
        assert_eq!(mode.name(), names[i]);
        assert_eq!(Mode::parse(names[i]), Ok(*mode));
        assert_eq!(Mode::parse(&names[i].to_lowercase()), Ok(*mode));
        assert_eq!(Mode::parse(&names[i].to_uppercase()), Ok(*mode));
        assert_eq!(names[i].parse::<Mode>(), Ok(*mode));
    }
}

#[test]
fn unknown_mode_names() {
    for text in ["", "major", "minor", "ionia", "ionian ", "locrianx"] {
        assert_eq!(Mode::parse(text), Err(ModeError::UnrecognisedMode));
    }
}

#[test]
fn degree_positions_and_names() {
    let names = [
        "Tonic",
        "Supertonic",
        "Mediant",
        "Subdominant",
        "Dominant",
        "Submediant",
        "Subtonic",
    ];
    for (i, degree) in DEGREES.iter().enumerate() {
        assert_eq!(degree.index(), i);
        assert_eq!(degree.name(), names[i]);
    }
}

#[test]
fn diatonic_pattern_is_the_major_scale() {
    assert_eq!(
        DIATONIC,
        [
            Interval::Whole,
            Interval::Whole,
            Interval::Half,
            Interval::Whole,
            Interval::Whole,
            Interval::Whole,
        ]
    );
}

#[test]
fn c_ionian_is_the_white_keys() {
    assert_eq!(
        scale_notes(Mode::Ionian, Note::C),
        vec![Note::C, Note::D, Note::E, Note::F, Note::G, Note::A, Note::B]
    );
}

#[test]
fn c_aeolian_rotates_by_five() {
    assert_eq!(
        scale_notes(Mode::Aeolian, Note::C),
        vec![Note::A, Note::B, Note::C, Note::D, Note::E, Note::F, Note::G]
    );
}

#[test]
fn every_mode_rotates_the_same_seven_notes() {
    let major = scale_notes(Mode::Ionian, Note::G);
    assert_eq!(
        major,
        vec![Note::G, Note::A, Note::B, Note::C, Note::D, Note::E, Note::Gb]
    );
    for mode in MODES {
        let notes = scale_notes(mode, Note::G);
        assert_eq!(notes.len(), 7);
        for i in 0..7 {
            assert_eq!(notes[i], major[(i + mode.index()) % 7]);
        }
    }
    assert_eq!(
        scale_notes(Mode::Locrian, Note::C),
        vec![Note::B, Note::C, Note::D, Note::E, Note::F, Note::G, Note::A]
    );
    assert_eq!(
        scale_notes(Mode::Dorian, Note::C),
        vec![Note::D, Note::E, Note::F, Note::G, Note::A, Note::B, Note::C]
    );
}

#[test]
fn scale_of_other_patterns() {
    static HALVES: [Interval; 6] = [Interval::Half; 6];
    static STILL: [Interval; 6] = [Interval::Identity; 6];
    let chromatic = Scale::new(Class::Heptatonic(&HALVES, Mode::Ionian), Note::A).unwrap();
    assert_eq!(chromatic.note(Degree::Tonic), Note::A);
    assert_eq!(chromatic.note(Degree::Mediant), Note::B);
    assert_eq!(chromatic.note(Degree::Subtonic), Note::Eb);
    let still = Scale::new(Class::Heptatonic(&STILL, Mode::Lydian), Note::F).unwrap();
    for degree in DEGREES {
        assert_eq!(still.note(degree), Note::F);
    }
}

#[test]
fn folding_lowers_ascii_capitals_only() {
    assert_eq!(lower_char('A'), 'a');
    assert_eq!(lower_char('Z'), 'z');
    assert_eq!(lower_char('m'), 'm');
    assert_eq!(lower_char('#'), '#');
    assert_eq!(lower_char('@'), '@');
    assert_eq!(lower_char('['), '[');
    assert_eq!(lower_char('\u{c9}'), '\u{c9}');
    assert_eq!(fold("Db #X\u{c9}"), vec!['d', 'b', ' ', '#', 'x', '\u{c9}']);
    assert_eq!(fold(""), Vec::<char>::new());
    assert_eq!(chars_of("Db"), vec!['D', 'b']);
}

#[test]
fn spelling_compares_whole_words() {
    assert!(spells(&vec!['d', 'b'], "db"));
    assert!(!spells(&vec!['d', 'b'], "d"));
    assert!(!spells(&vec!['d'], "db"));
    assert!(!spells(&vec!['d', 'c'], "db"));
    assert!(spells(&vec![], ""));
}

#[test]
fn decimal_text_of_integers() {
    let cases = [0, 1, 9, 10, 11, 12, 99, 100, 1234567890, i32::MAX, -1, -10, -305, i32::MIN];
    for n in cases {
        let mut out = String::from("n=");
        push_decimal(&mut out, n);
        assert_eq!(out, format!("n={}", n));
    }
    let mut out = String::new();
    push_digits(&mut out, u32::MAX);
    push_digits(&mut out, 0);
    assert_eq!(out, "42949672950");
}

#[test]
fn lists_hold_every_value_once_in_order() {
    assert_eq!(Note::all(), NOTES.to_vec());
    assert_eq!(Degree::all(), DEGREES.to_vec());
    assert_eq!(Mode::all(), MODES.to_vec());
    for (i, note) in Note::all().iter().enumerate() {
        assert_eq!(note.index() as usize, i);
    }
    for (i, degree) in Degree::all().iter().enumerate() {
        assert_eq!(degree.index(), i);
    }
    for (i, mode) in Mode::all().iter().enumerate() {
        assert_eq!(mode.index(), i);
    }
}

#[test]
fn every_diatonic_scale_holds_seven_distinct_notes() {
    let offsets = [0, 2, 4, 5, 7, 9, 11];
    for key in NOTES {
        for mode in MODES {
            let notes = scale_notes(mode, key);
            assert_eq!(notes.len(), 7);
            for i in 0..7 {
                let expected = key.derive(offsets[(i + mode.index()) % 7]).unwrap();
                assert_eq!(notes[i], expected);
                for j in (i + 1)..7 {
                    assert_ne!(notes[i], notes[j]);
                }
            }
        }
    }
}
