//! Pitch classes, interval steps, scale degrees, modes and seven-note scales.

use vstd::prelude::*;
use vstd::string::*;
use crate::text::{fold_short, folded, spells};

verus! {

/// One of the twelve pitch classes, in semitone order from C.
#[derive(Debug, Clone, Copy, PartialEq, Eq, Structural)]
pub enum Note {
    C,
    Db,
    D,
    Eb,
    E,
    F,
    Gb,
    G,
    Ab,
    A,
    Bb,
    B,
}

/// Why no pitch class came out: of a transposition, or of reading a name.
#[derive(Debug, Clone, Copy, PartialEq, Eq, Structural)]
pub enum NoteError {
    OffsetError,
    NotationError,
}

impl Note {
    /// Position on the semitone circle: C is 0, B is 11.
    pub open spec fn ordinal(self) -> int {
        match self {
            Note::C => 0,
            Note::Db => 1,
            Note::D => 2,
            Note::Eb => 3,
            Note::E => 4,
            Note::F => 5,
            Note::Gb => 6,
            Note::G => 7,
            Note::Ab => 8,
            Note::A => 9,
            Note::Bb => 10,
            Note::B => 11,
        }
    }

    /// The pitch class at a position of the semitone circle, taken modulo 12.
    pub open spec fn at(position: int) -> Note {
        let p = position % 12;
        if p == 0 {
            Note::C
        } else if p == 1 {
            Note::Db
        } else if p == 2 {
            Note::D
        } else if p == 3 {
            Note::Eb
        } else if p == 4 {
            Note::E
        } else if p == 5 {
            Note::F
        } else if p == 6 {
            Note::Gb
        } else if p == 7 {
            Note::G
        } else if p == 8 {
            Note::Ab
        } else if p == 9 {
            Note::A
        } else if p == 10 {
            Note::Bb
        } else {
            Note::B
        }
    }

    /// This pitch class moved by `offset` semitones around the circle.
    pub open spec fn transposed(self, offset: int) -> Note {
        Note::at(self.ordinal() + offset)
    }

    /// The canonical spelling: a capital letter, with `b` for a flat.
    pub open spec fn spelling(self) -> Seq<char> {
        match self {
            Note::C => "C"@,
            Note::Db => "Db"@,
            Note::D => "D"@,
            Note::Eb => "Eb"@,
            Note::E => "E"@,
            Note::F => "F"@,
            Note::Gb => "Gb"@,
            Note::G => "G"@,
            Note::Ab => "Ab"@,
            Note::A => "A"@,
            Note::Bb => "Bb"@,
            Note::B => "B"@,
        }
    }

    /// What a lower-case note name denotes: naturals, and sharps and flats
    /// as the same pitch class. Anything else is a notation error.
    pub open spec fn named(name: Seq<char>) -> Result<Note, NoteError> {
        if name == "c"@ {
            Ok(Note::C)
        } else if name == "c#"@ || name == "db"@ {
            Ok(Note::Db)
        } else if name == "d"@ {
            Ok(Note::D)
        } else if name == "d#"@ || name == "eb"@ {
            Ok(Note::Eb)
        } else if name == "e"@ {
            Ok(Note::E)
        } else if name == "f"@ {
            Ok(Note::F)
        } else if name == "f#"@ || name == "gb"@ {
            Ok(Note::Gb)
        } else if name == "g"@ {
            Ok(Note::G)
        } else if name == "g#"@ || name == "ab"@ {
            Ok(Note::Ab)
        } else if name == "a"@ {
            Ok(Note::A)
        } else if name == "a#"@ || name == "bb"@ {
            Ok(Note::Bb)
        } else if name == "b"@ {
            Ok(Note::B)
        } else {
            Err(NoteError::NotationError)
        }
    }

    /// What a note name denotes, whatever its letter case.
    pub open spec fn parsed(text: Seq<char>) -> Result<Note, NoteError> {
        Note::named(folded(text))
    }

    /// The twelve pitch classes in semitone order, each once.
    pub open spec fn every() -> Seq<Note> {
        Seq::new(12, |position: int| Note::at(position))
    }

    /// The twelve pitch classes in semitone order, each once.
    pub fn all() -> (r: Vec<Note>)
        ensures
            r@ == Note::every(),
    {
        let notes = vec![
            Note::C,
            Note::Db,
            Note::D,
            Note::Eb,
            Note::E,
            Note::F,
            Note::Gb,
            Note::G,
            Note::Ab,
            Note::A,
            Note::Bb,
            Note::B,
        ];
        assert(notes@ =~= Note::every());
        notes
    }

    /// Position on the semitone circle, from 0 for C to 11 for B.
    pub fn index(&self) -> (r: u8)
        ensures
            r == self.ordinal(),
            r < 12,
    {
        match self {
            Note::C => 0,
            Note::Db => 1,
            Note::D => 2,
            Note::Eb => 3,
            Note::E => 4,
            Note::F => 5,
            Note::Gb => 6,
            Note::G => 7,
            Note::Ab => 8,
            Note::A => 9,
            Note::Bb => 10,
            Note::B => 11,
        }
    }

    /// The pitch class at a position of the semitone circle, taken modulo 12.
    pub fn from_index(position: u8) -> (r: Note)
        ensures
            r == Note::at(position as int),
    {
        let p: u8 = position % 12;
        if p == 0 {
            Note::C
        } else if p == 1 {
            Note::Db
        } else if p == 2 {
            Note::D
        } else if p == 3 {
            Note::Eb
        } else if p == 4 {
            Note::E
        } else if p == 5 {
            Note::F
        } else if p == 6 {
            Note::Gb
        } else if p == 7 {
            Note::G
        } else if p == 8 {
            Note::Ab
        } else if p == 9 {
            Note::A
        } else if p == 10 {
            Note::Bb
        } else {
            Note::B
        }
    }

    /// Transposes by `offset` semitones, which may be negative or larger
    /// than an octave. The sum is reduced modulo 12 before the lookup, so
    /// every offset yields a pitch class.
    pub fn derive(&self, offset: i32) -> (r: Result<Note, NoteError>)
        ensures
            r == Ok::<Note, NoteError>(self.transposed(offset as int)),
    {
        match offset.checked_rem_euclid(12) {
            Some(step) => {
                let base: u8 = self.index();
                let sum: i32 = base as i32 + step;
                assert(sum % 12 == (self.ordinal() + offset) % 12) by {
                    vstd::arithmetic::div_mod::lemma_add_mod_noop(
                        self.ordinal(),
                        offset as int,
                        12,
                    );
                    vstd::arithmetic::div_mod::lemma_add_mod_noop(
                        self.ordinal(),
                        step as int,
                        12,
                    );
                    vstd::arithmetic::div_mod::lemma_mod_twice(offset as int, 12);
                }
                Ok(Note::from_index(sum as u8))
            },
            None => Err(NoteError::OffsetError),
        }
    }

    /// The canonical spelling as text.
    pub fn name(&self) -> (r: String)
        ensures
            r@ == self.spelling(),
    {
        match self {
            Note::C => String::from_str("C"),
            Note::Db => String::from_str("Db"),
            Note::D => String::from_str("D"),
            Note::Eb => String::from_str("Eb"),
            Note::E => String::from_str("E"),
            Note::F => String::from_str("F"),
            Note::Gb => String::from_str("Gb"),
            Note::G => String::from_str("G"),
            Note::Ab => String::from_str("Ab"),
            Note::A => String::from_str("A"),
            Note::Bb => String::from_str("Bb"),
            Note::B => String::from_str("B"),
        }
    }

    /// Reads a lower-case note name.
    pub fn from_lower(name: &Vec<char>) -> (r: Result<Note, NoteError>)
        ensures
            r == Note::named(name@),
    {
        if spells(name, "c") {
            Ok(Note::C)
        } else if spells(name, "c#") || spells(name, "db") {
            Ok(Note::Db)
        } else if spells(name, "d") {
            Ok(Note::D)
        } else if spells(name, "d#") || spells(name, "eb") {
            Ok(Note::Eb)
        } else if spells(name, "e") {
            Ok(Note::E)
        } else if spells(name, "f") {
            Ok(Note::F)
        } else if spells(name, "f#") || spells(name, "gb") {
            Ok(Note::Gb)
        } else if spells(name, "g") {
            Ok(Note::G)
        } else if spells(name, "g#") || spells(name, "ab") {
            Ok(Note::Ab)
        } else if spells(name, "a") {
            Ok(Note::A)
        } else if spells(name, "a#") || spells(name, "bb") {
            Ok(Note::Bb)
        } else if spells(name, "b") {
            Ok(Note::B)
        } else {
            Err(NoteError::NotationError)
        }
    }

    /// Reads a note name in any letter case.
    pub fn parse(value: &str) -> (r: Result<Note, NoteError>)
        ensures
            r == Note::parsed(value@),
    {
        match fold_short(value, 2) {
            Some(name) => Note::from_lower(&name),
            None => {
                proof {
                    reveal_strlit("c");
                    reveal_strlit("c#");
                    reveal_strlit("db");
                    reveal_strlit("d");
                    reveal_strlit("d#");
                    reveal_strlit("eb");
                    reveal_strlit("e");
                    reveal_strlit("f");
                    reveal_strlit("f#");
                    reveal_strlit("gb");
                    reveal_strlit("g");
                    reveal_strlit("g#");
                    reveal_strlit("ab");
                    reveal_strlit("a");
                    reveal_strlit("a#");
                    reveal_strlit("bb");
                    reveal_strlit("b");
                    assert(folded(value@).len() == value@.len());
                    assert("c"@.len() == 1);
                    assert("c#"@.len() == 2);
                    assert("db"@.len() == 2);
                    assert("d"@.len() == 1);
                    assert("d#"@.len() == 2);
                    assert("eb"@.len() == 2);
                    assert("e"@.len() == 1);
                    assert("f"@.len() == 1);
                    assert("f#"@.len() == 2);
                    assert("gb"@.len() == 2);
                    assert("g"@.len() == 1);
                    assert("g#"@.len() == 2);
                    assert("ab"@.len() == 2);
                    assert("a"@.len() == 1);
                    assert("a#"@.len() == 2);
                    assert("bb"@.len() == 2);
                    assert("b"@.len() == 1);
                }
                Err(NoteError::NotationError)
            },
        }
    }
}

impl std::str::FromStr for Note {
    type Err = NoteError;

    /// Reads a note name in any letter case.
    fn from_str(value: &str) -> (r: Result<Note, NoteError>)
        ensures
            r == Note::parsed(value@),
    {
        Note::parse(value)
    }
}

/// Transposing by nothing or by an octave gives the same pitch class back,
/// and offsets an octave apart transpose alike.
pub proof fn lemma_transpose_octave(p: Note, n: int)
    ensures
        p.transposed(0) == p,
        p.transposed(12) == p,
        p.transposed(n + 12) == p.transposed(n),
        p.transposed(n - 12) == p.transposed(n),
{
    assert((p.ordinal() + n + 12) % 12 == (p.ordinal() + n) % 12) by {
        vstd::arithmetic::div_mod::lemma_mod_add_multiples_vanish(p.ordinal() + n, 12);
    }
    assert((p.ordinal() + n - 12) % 12 == (p.ordinal() + n) % 12) by {
        vstd::arithmetic::div_mod::lemma_mod_sub_multiples_vanish(p.ordinal() + n, 12);
    }
}

/// The position of a transposed pitch class is the sum reduced modulo 12,
/// so two transpositions in a row are one by the sum of the offsets.
pub proof fn lemma_transpose_twice(p: Note, a: int, b: int)
    ensures
        p.transposed(a).ordinal() == (p.ordinal() + a) % 12,
        p.transposed(a).transposed(b) == p.transposed(a + b),
{
    let x = p.ordinal() + a;
    assert(Note::at(x).ordinal() == x % 12);
    assert((x % 12 + b) % 12 == (x + b) % 12) by {
        vstd::arithmetic::div_mod::lemma_add_mod_noop(x, b, 12);
        vstd::arithmetic::div_mod::lemma_add_mod_noop(x % 12, b, 12);
        vstd::arithmetic::div_mod::lemma_mod_twice(x, 12);
    }
}

/// Reading the canonical spelling of a pitch class gives that pitch class.
pub proof fn lemma_spelling_round_trip(p: Note)
    ensures
        Note::parsed(p.spelling()) == Ok::<Note, NoteError>(p),
{
    reveal_strlit("C");
    reveal_strlit("Db");
    reveal_strlit("D");
    reveal_strlit("Eb");
    reveal_strlit("E");
    reveal_strlit("F");
    reveal_strlit("Gb");
    reveal_strlit("G");
    reveal_strlit("Ab");
    reveal_strlit("A");
    reveal_strlit("Bb");
    reveal_strlit("B");
    reveal_strlit("c");
    reveal_strlit("c#");
    reveal_strlit("db");
    reveal_strlit("d");
    reveal_strlit("d#");
    reveal_strlit("eb");
    reveal_strlit("e");
    reveal_strlit("f");
    reveal_strlit("f#");
    reveal_strlit("gb");
    reveal_strlit("g");
    reveal_strlit("g#");
    reveal_strlit("ab");
    reveal_strlit("a");
    reveal_strlit("a#");
    reveal_strlit("bb");
    reveal_strlit("b");
    assert("c"@.len() == 1 && "c"@[0] == 'c');
    assert("c#"@.len() == 2 && "c#"@[0] == 'c' && "c#"@[1] == '#');
    assert("db"@.len() == 2 && "db"@[0] == 'd' && "db"@[1] == 'b');
    assert("d"@.len() == 1 && "d"@[0] == 'd');
    assert("d#"@.len() == 2 && "d#"@[0] == 'd' && "d#"@[1] == '#');
    assert("eb"@.len() == 2 && "eb"@[0] == 'e' && "eb"@[1] == 'b');
    assert("e"@.len() == 1 && "e"@[0] == 'e');
    assert("f"@.len() == 1 && "f"@[0] == 'f');
    assert("f#"@.len() == 2 && "f#"@[0] == 'f' && "f#"@[1] == '#');
    assert("gb"@.len() == 2 && "gb"@[0] == 'g' && "gb"@[1] == 'b');
    assert("g"@.len() == 1 && "g"@[0] == 'g');
    assert("g#"@.len() == 2 && "g#"@[0] == 'g' && "g#"@[1] == '#');
    assert("ab"@.len() == 2 && "ab"@[0] == 'a' && "ab"@[1] == 'b');
    assert("a"@.len() == 1 && "a"@[0] == 'a');
    assert("a#"@.len() == 2 && "a#"@[0] == 'a' && "a#"@[1] == '#');
    assert("bb"@.len() == 2 && "bb"@[0] == 'b' && "bb"@[1] == 'b');
    assert("b"@.len() == 1 && "b"@[0] == 'b');
    let t = folded(p.spelling());
    match p {
        Note::C => { assert(t =~= "c"@); },
        Note::Db => { assert(t =~= "db"@); },
        Note::D => { assert(t =~= "d"@); },
        Note::Eb => { assert(t =~= "eb"@); },
        Note::E => { assert(t =~= "e"@); },
        Note::F => { assert(t =~= "f"@); },
        Note::Gb => { assert(t =~= "gb"@); },
        Note::G => { assert(t =~= "g"@); },
        Note::Ab => { assert(t =~= "ab"@); },
        Note::A => { assert(t =~= "a"@); },
        Note::Bb => { assert(t =~= "bb"@); },
        Note::B => { assert(t =~= "b"@); },
    }
}

/// The size of one scale step.
#[derive(Debug, Clone, Copy, PartialEq, Eq, Structural)]
pub enum Interval {
    Identity,
    Half,
    Whole,
}

/// Why a text names no interval.
#[derive(Debug, Clone, Copy, PartialEq, Eq, Structural)]
pub enum IntervalError {
    UnrecognisedInterval,
}

impl Interval {
    /// Width in semitones.
    pub open spec fn width(self) -> int {
        match self {
            Interval::Identity => 0,
            Interval::Half => 1,
            Interval::Whole => 2,
        }
    }

    /// The name of the interval.
    pub open spec fn spelling(self) -> Seq<char> {
        match self {
            Interval::Identity => "Identity"@,
            Interval::Half => "Half"@,
            Interval::Whole => "Whole"@,
        }
    }

    /// What a lower-case interval name denotes.
    pub open spec fn named(name: Seq<char>) -> Result<Interval, IntervalError> {
        if name == "half"@ || name == "semitone"@ {
            Ok(Interval::Half)
        } else if name == "whole"@ || name == "tone"@ {
            Ok(Interval::Whole)
        } else {
            Err(IntervalError::UnrecognisedInterval)
        }
    }

    /// What an interval name denotes, whatever its letter case.
    pub open spec fn parsed(text: Seq<char>) -> Result<Interval, IntervalError> {
        Interval::named(folded(text))
    }

    /// Width in semitones.
    pub fn semitones(&self) -> (r: i32)
        ensures
            r == self.width(),
    {
        match self {
            Interval::Identity => 0,
            Interval::Half => 1,
            Interval::Whole => 2,
        }
    }

    /// The name of the interval as text.
    pub fn name(&self) -> (r: String)
        ensures
            r@ == self.spelling(),
    {
        match self {
            Interval::Identity => String::from_str("Identity"),
            Interval::Half => String::from_str("Half"),
            Interval::Whole => String::from_str("Whole"),
        }
    }

    /// Reads a lower-case interval name.
    pub fn from_lower(name: &Vec<char>) -> (r: Result<Interval, IntervalError>)
        ensures
            r == Interval::named(name@),
    {
        if spells(name, "half") || spells(name, "semitone") {
            Ok(Interval::Half)
        } else if spells(name, "whole") || spells(name, "tone") {
            Ok(Interval::Whole)
        } else {
            Err(IntervalError::UnrecognisedInterval)
        }
    }

    /// Reads an interval name in any letter case.
    pub fn parse(value: &str) -> (r: Result<Interval, IntervalError>)
        ensures
            r == Interval::parsed(value@),
    {
        match fold_short(value, 8) {
            Some(name) => Interval::from_lower(&name),
            None => {
                proof {
                    reveal_strlit("half");
                    reveal_strlit("semitone");
                    reveal_strlit("whole");
                    reveal_strlit("tone");
                    assert(folded(value@).len() == value@.len());
                    assert("half"@.len() == 4);
                    assert("semitone"@.len() == 8);
                    assert("whole"@.len() == 5);
                    assert("tone"@.len() == 4);
                }
                Err(IntervalError::UnrecognisedInterval)
            },
        }
    }
}

impl std::str::FromStr for Interval {
    type Err = IntervalError;

    /// Reads an interval name in any letter case.
    fn from_str(value: &str) -> (r: Result<Interval, IntervalError>)
        ensures
            r == Interval::parsed(value@),
    {
        Interval::parse(value)
    }
}

/// A position within a seven-note scale.
#[derive(Debug, Clone, Copy, PartialEq, Eq, Structural)]
pub enum Degree {
    Tonic,
    Supertonic,
    Mediant,
    Subdominant,
    Dominant,
    Submediant,
    Subtonic,
}

impl Degree {
    /// Index into a scale: the tonic is 0, the subtonic 6.
    pub open spec fn ordinal(self) -> int {
        match self {
            Degree::Tonic => 0,
            Degree::Supertonic => 1,
            Degree::Mediant => 2,
            Degree::Subdominant => 3,
            Degree::Dominant => 4,
            Degree::Submediant => 5,
            Degree::Subtonic => 6,
        }
    }

    /// The name of the degree.
    pub open spec fn spelling(self) -> Seq<char> {
        match self {
            Degree::Tonic => "Tonic"@,
            Degree::Supertonic => "Supertonic"@,
            Degree::Mediant => "Mediant"@,
            Degree::Subdominant => "Subdominant"@,
            Degree::Dominant => "Dominant"@,
            Degree::Submediant => "Submediant"@,
            Degree::Subtonic => "Subtonic"@,
        }
    }

    /// The seven degrees from the tonic up, each once.
    pub open spec fn every() -> Seq<Degree> {
        seq![
            Degree::Tonic,
            Degree::Supertonic,
            Degree::Mediant,
            Degree::Subdominant,
            Degree::Dominant,
            Degree::Submediant,
            Degree::Subtonic,
        ]
    }

    /// The seven degrees from the tonic up, each once.
    pub fn all() -> (r: Vec<Degree>)
        ensures
            r@ == Degree::every(),
    {
        let degrees = vec![
            Degree::Tonic,
            Degree::Supertonic,
            Degree::Mediant,
            Degree::Subdominant,
            Degree::Dominant,
            Degree::Submediant,
            Degree::Subtonic,
        ];
        assert(degrees@ =~= Degree::every());
        degrees
    }

    /// Index into a scale, from 0 for the tonic to 6 for the subtonic.
    pub fn index(&self) -> (r: usize)
        ensures
            r == self.ordinal(),
            r < 7,
    {
        match self {
            Degree::Tonic => 0,
            Degree::Supertonic => 1,
            Degree::Mediant => 2,
            Degree::Subdominant => 3,
            Degree::Dominant => 4,
            Degree::Submediant => 5,
            Degree::Subtonic => 6,
        }
    }

    /// The name of the degree as text.
    pub fn name(&self) -> (r: String)
        ensures
            r@ == self.spelling(),
    {
        match self {
            Degree::Tonic => String::from_str("Tonic"),
            Degree::Supertonic => String::from_str("Supertonic"),
            Degree::Mediant => String::from_str("Mediant"),
            Degree::Subdominant => String::from_str("Subdominant"),
            Degree::Dominant => String::from_str("Dominant"),
            Degree::Submediant => String::from_str("Submediant"),
            Degree::Subtonic => String::from_str("Subtonic"),
        }
    }
}

/// One of the seven rotations of the diatonic pattern.
#[derive(Debug, Clone, Copy, PartialEq, Eq, Structural)]
pub enum Mode {
    Ionian,
    Dorian,
    Phrygian,
    Lydian,
    Mixolydian,
    Aeolian,
    Locrian,
}

/// Why a text names no mode.
#[derive(Debug, Clone, Copy, PartialEq, Eq, Structural)]
pub enum ModeError {
    UnrecognisedMode,
}

impl Mode {
    /// How far the mode rotates the pattern: Ionian by 0, Locrian by 6.
    pub open spec fn ordinal(self) -> int {
        match self {
            Mode::Ionian => 0,
            Mode::Dorian => 1,
            Mode::Phrygian => 2,
            Mode::Lydian => 3,
            Mode::Mixolydian => 4,
            Mode::Aeolian => 5,
            Mode::Locrian => 6,
        }
    }

    /// The name of the mode.
    pub open spec fn spelling(self) -> Seq<char> {
        match self {
            Mode::Ionian => "Ionian"@,
            Mode::Dorian => "Dorian"@,
            Mode::Phrygian => "Phrygian"@,
            Mode::Lydian => "Lydian"@,
            Mode::Mixolydian => "Mixolydian"@,
            Mode::Aeolian => "Aeolian"@,
            Mode::Locrian => "Locrian"@,
        }
    }

    /// What a lower-case mode name denotes.
    pub open spec fn named(name: Seq<char>) -> Result<Mode, ModeError> {
        if name == "ionian"@ {
            Ok(Mode::Ionian)
        } else if name == "dorian"@ {
            Ok(Mode::Dorian)
        } else if name == "phrygian"@ {
            Ok(Mode::Phrygian)
        } else if name == "lydian"@ {
            Ok(Mode::Lydian)
        } else if name == "mixolydian"@ {
            Ok(Mode::Mixolydian)
        } else if name == "aeolian"@ {
            Ok(Mode::Aeolian)
        } else if name == "locrian"@ {
            Ok(Mode::Locrian)
        } else {
            Err(ModeError::UnrecognisedMode)
        }
    }

    /// What a mode name denotes, whatever its letter case.
    pub open spec fn parsed(text: Seq<char>) -> Result<Mode, ModeError> {
        Mode::named(folded(text))
    }

    /// The seven modes in the order of their rotation, each once.
    pub open spec fn every() -> Seq<Mode> {
        seq![
            Mode::Ionian,
            Mode::Dorian,
            Mode::Phrygian,
            Mode::Lydian,
            Mode::Mixolydian,
            Mode::Aeolian,
            Mode::Locrian,
        ]
    }

    /// The seven modes in the order of their rotation, each once.
    pub fn all() -> (r: Vec<Mode>)
        ensures
            r@ == Mode::every(),
    {
        let modes = vec![
            Mode::Ionian,
            Mode::Dorian,
            Mode::Phrygian,
            Mode::Lydian,
            Mode::Mixolydian,
            Mode::Aeolian,
            Mode::Locrian,
        ];
        assert(modes@ =~= Mode::every());
        modes
    }

    /// How far the mode rotates the pattern, from 0 for Ionian to 6 for Locrian.
    pub fn index(&self) -> (r: usize)
        ensures
            r == self.ordinal(),
            r < 7,
    {
        match self {
            Mode::Ionian => 0,
            Mode::Dorian => 1,
            Mode::Phrygian => 2,
            Mode::Lydian => 3,
            Mode::Mixolydian => 4,
            Mode::Aeolian => 5,
            Mode::Locrian => 6,
        }
    }

    /// The name of the mode as text.
    pub fn name(&self) -> (r: String)
        ensures
            r@ == self.spelling(),
    {
        match self {
            Mode::Ionian => String::from_str("Ionian"),
            Mode::Dorian => String::from_str("Dorian"),
            Mode::Phrygian => String::from_str("Phrygian"),
            Mode::Lydian => String::from_str("Lydian"),
            Mode::Mixolydian => String::from_str("Mixolydian"),
            Mode::Aeolian => String::from_str("Aeolian"),
            Mode::Locrian => String::from_str("Locrian"),
        }
    }

    /// Reads a lower-case mode name.
    pub fn from_lower(name: &Vec<char>) -> (r: Result<Mode, ModeError>)
        ensures
            r == Mode::named(name@),
    {
        if spells(name, "ionian") {
            Ok(Mode::Ionian)
        } else if spells(name, "dorian") {
            Ok(Mode::Dorian)
        } else if spells(name, "phrygian") {
            Ok(Mode::Phrygian)
        } else if spells(name, "lydian") {
            Ok(Mode::Lydian)
        } else if spells(name, "mixolydian") {
            Ok(Mode::Mixolydian)
        } else if spells(name, "aeolian") {
            Ok(Mode::Aeolian)
        } else if spells(name, "locrian") {
            Ok(Mode::Locrian)
        } else {
            Err(ModeError::UnrecognisedMode)
        }
    }

    /// Reads a mode name in any letter case.
    pub fn parse(value: &str) -> (r: Result<Mode, ModeError>)
        ensures
            r == Mode::parsed(value@),
    {
        match fold_short(value, 10) {
            Some(name) => Mode::from_lower(&name),
            None => {
                proof {
                    reveal_strlit("ionian");
                    reveal_strlit("dorian");
                    reveal_strlit("phrygian");
                    reveal_strlit("lydian");
                    reveal_strlit("mixolydian");
                    reveal_strlit("aeolian");
                    reveal_strlit("locrian");
                    assert(folded(value@).len() == value@.len());
                    assert("ionian"@.len() == 6);
                    assert("dorian"@.len() == 6);
                    assert("phrygian"@.len() == 8);
                    assert("lydian"@.len() == 6);
                    assert("mixolydian"@.len() == 10);
                    assert("aeolian"@.len() == 7);
                    assert("locrian"@.len() == 7);
                }
                Err(ModeError::UnrecognisedMode)
            },
        }
    }
}

impl std::str::FromStr for Mode {
    type Err = ModeError;

    /// Reads a mode name in any letter case.
    fn from_str(value: &str) -> (r: Result<Mode, ModeError>)
        ensures
            r == Mode::parsed(value@),
    {
        Mode::parse(value)
    }
}

/// The steps of the major scale, from the tonic up to the subtonic.
pub const DIATONIC: [Interval; 6] = [
    Interval::Whole,
    Interval::Whole,
    Interval::Half,
    Interval::Whole,
    Interval::Whole,
    Interval::Whole,
];

/// The diatonic pattern as a sequence.
pub open spec fn diatonic() -> Seq<Interval> {
    seq![
        Interval::Whole,
        Interval::Whole,
        Interval::Half,
        Interval::Whole,
        Interval::Whole,
        Interval::Whole,
    ]
}

/// A family of scales: six steps and the mode that rotates them.
pub enum Class {
    Heptatonic(&'static [Interval; 6], Mode),
}

/// The semitones covered by the first `count` steps.
pub open spec fn span(steps: Seq<Interval>, count: int) -> int
    decreases count,
{
    if count <= 0 {
        0
    } else {
        span(steps, count - 1) + steps[count - 1].width()
    }
}

/// The notes reached from `key` by walking the steps: the key itself, then
/// one note per step.
pub open spec fn ladder(key: Note, steps: Seq<Interval>) -> Seq<Note> {
    Seq::new(steps.len() + 1, |i: int| key.transposed(span(steps, i)))
}

/// A sequence turned left by `shift` places, so that the element at `shift`
/// comes first.
pub open spec fn rotated(notes: Seq<Note>, shift: int) -> Seq<Note> {
    Seq::new(notes.len(), |i: int| notes[(i + shift) % (notes.len() as int)])
}

/// Seven pitch classes in order, from the tonic of the mode.
pub struct Scale {
    notes: Vec<Note>,
}

impl View for Scale {
    type V = Seq<Note>;

    /// The notes in order, the tonic first.
    closed spec fn view(&self) -> Seq<Note> {
        self.notes@
    }
}

impl Scale {
    /// A scale always holds seven notes.
    #[verifier::type_invariant]
    closed spec fn seven(self) -> bool {
        self.notes@.len() == 7
    }

    /// The notes of the scale of a class in a key.
    pub open spec fn realized(class: Class, key: Note) -> Seq<Note> {
        match class {
            Class::Heptatonic(intervals, mode) => rotated(ladder(key, intervals@), mode.ordinal()),
        }
    }

    /// Walks the six steps up from `key` and rotates the seven notes left by
    /// the mode's position.
    pub fn new(class: Class, key: Note) -> (r: Result<Scale, NoteError>)
        ensures
            r is Ok,
            r->Ok_0@ == Scale::realized(class, key),
            r->Ok_0@.len() == 7,
    {
        let (intervals, mode) = match class {
            Class::Heptatonic(intervals, mode) => (intervals, mode),
        };
        let mut note = key;
        let mut walked: Vec<Note> = Vec::new();
        walked.push(key);
        proof {
            lemma_transpose_octave(key, 0);
        }
        let mut i: usize = 0;
        while i < 6
            invariant
                i <= 6,
                intervals@.len() == 6,
                walked@.len() == i + 1,
                note == key.transposed(span(intervals@, i as int)),
                forall|j: int| 0 <= j <= i ==> walked@[j] == key.transposed(span(intervals@, j)),
            decreases 6 - i,
        {
            let step = intervals[i].semitones();
            proof {
                lemma_transpose_twice(key, span(intervals@, i as int), step as int);
            }
            note = match note.derive(step) {
                Ok(next) => next,
                Err(e) => {
                    return Err(e);
                },
            };
            walked.push(note);
            i = i + 1;
        }
        assert(walked@ =~= ladder(key, intervals@));
        let shift = mode.index();
        let mut notes: Vec<Note> = Vec::new();
        let mut k: usize = 0;
        while k < 7
            invariant
                k <= 7,
                shift < 7,
                walked@.len() == 7,
                notes@.len() == k,
                forall|j: int| 0 <= j < k ==> notes@[j] == walked@[(j + shift) % 7],
            decreases 7 - k,
        {
            notes.push(walked[(k + shift) % 7]);
            k = k + 1;
        }
        assert(notes@ =~= rotated(walked@, shift as int));
        Ok(Scale { notes })
    }

    /// The note at a degree of the scale.
    pub fn note(&self, degree: Degree) -> (r: Note)
        ensures
            self@.len() == 7,
            r == self@[degree.ordinal()],
    {
        proof {
            use_type_invariant(self);
        }
        self.notes[degree.index()]
    }
}

/// The lists that a random draw is made from are complete and hold nothing
/// twice: every pitch class, degree and mode stands at its own position, and
/// each position holds the value of that position.
pub proof fn lemma_lists_are_complete(note: Note, degree: Degree, mode: Mode)
    ensures
        Note::every().len() == 12,
        Note::every()[note.ordinal()] == note,
        forall|i: int| 0 <= i < 12 ==> (#[trigger] Note::every()[i]).ordinal() == i,
        Degree::every().len() == 7,
        Degree::every()[degree.ordinal()] == degree,
        forall|i: int| 0 <= i < 7 ==> (#[trigger] Degree::every()[i]).ordinal() == i,
        Mode::every().len() == 7,
        Mode::every()[mode.ordinal()] == mode,
        forall|i: int| 0 <= i < 7 ==> (#[trigger] Mode::every()[i]).ordinal() == i,
{
}

/// The semitones from the tonic of the major scale up to each of its
/// degrees.
pub open spec fn major_offsets() -> Seq<int> {
    seq![0, 2, 4, 5, 7, 9, 11]
}

/// Transposing by two offsets within one octave gives the same pitch class
/// only where the offsets are the same.
pub proof fn lemma_transpose_distinct(key: Note, a: int, b: int)
    requires
        0 <= a < 12,
        0 <= b < 12,
        a != b,
    ensures
        key.transposed(a) != key.transposed(b),
{
    lemma_transpose_twice(key, a, 0);
    lemma_transpose_twice(key, b, 0);
    let k = key.ordinal();
    assert((k + a) % 12 != (k + b) % 12) by {
        if (k + a) % 12 == (k + b) % 12 {
            vstd::arithmetic::div_mod::lemma_fundamental_div_mod(k + a, 12);
            vstd::arithmetic::div_mod::lemma_fundamental_div_mod(k + b, 12);
            assert(a - b == 12 * ((k + a) / 12) - 12 * ((k + b) / 12));
            assert(false);
        }
    }
}

/// The diatonic pattern reaches its degrees at 0, 2, 4, 5, 7, 9 and 11
/// semitones from the tonic.
pub proof fn lemma_major_spans(degree: int)
    requires
        0 <= degree < 7,
    ensures
        span(diatonic(), degree) == major_offsets()[degree],
        0 <= major_offsets()[degree] < 12,
{
    let steps = diatonic();
    assert(span(steps, 0) == 0);
    assert(span(steps, 1) == 2);
    assert(span(steps, 2) == 4);
    assert(span(steps, 3) == 5);
    assert(span(steps, 4) == 7);
    assert(span(steps, 5) == 9);
    assert(span(steps, 6) == 11);
}

/// The note at a place of a mode of the diatonic pattern in a key: the key
/// moved up to the degree that the mode turns to that place.
pub proof fn lemma_diatonic_note(key: Note, mode: Mode, place: int)
    requires
        0 <= place < 7,
    ensures
        rotated(ladder(key, diatonic()), mode.ordinal())[place] == key.transposed(
            major_offsets()[(place + mode.ordinal()) % 7],
        ),
{
    let degree = (place + mode.ordinal()) % 7;
    lemma_major_spans(degree);
    assert(ladder(key, diatonic()).len() == 7);
    assert(ladder(key, diatonic())[degree] == key.transposed(span(diatonic(), degree)));
}

/// Every mode of the diatonic pattern in a key holds seven notes, no two
/// alike: the key moved by 0, 2, 4, 5, 7, 9 and 11 semitones, turned left
/// by the mode's position.
#[verifier::spinoff_prover]
#[verifier::rlimit(30)]
pub proof fn lemma_diatonic_notes(key: Note, mode: Mode)
    ensures
        rotated(ladder(key, diatonic()), mode.ordinal()).len() == 7,
        forall|i: int|
            0 <= i < 7 ==> #[trigger] rotated(ladder(key, diatonic()), mode.ordinal())[i]
                == key.transposed(major_offsets()[(i + mode.ordinal()) % 7]),
        forall|i: int, j: int|
            0 <= i < j < 7 ==> #[trigger] rotated(ladder(key, diatonic()), mode.ordinal())[i]
                != #[trigger] rotated(ladder(key, diatonic()), mode.ordinal())[j],
{
    let notes = rotated(ladder(key, diatonic()), mode.ordinal());
    assert(ladder(key, diatonic()).len() == 7);
    assert forall|i: int| 0 <= i < 7 implies #[trigger] notes[i] == key.transposed(
        major_offsets()[(i + mode.ordinal()) % 7],
    ) by {
        lemma_diatonic_note(key, mode, i);
    }
    assert forall|i: int, j: int| 0 <= i < j < 7 implies #[trigger] notes[i] != #[trigger] notes[j] by {
        let p = (i + mode.ordinal()) % 7;
        let q = (j + mode.ordinal()) % 7;
        lemma_diatonic_note(key, mode, i);
        lemma_diatonic_note(key, mode, j);
        lemma_major_spans(p);
        lemma_major_spans(q);
        assert(p != q);
        lemma_spans_distinct(p, q);
        lemma_transpose_distinct(key, major_offsets()[p], major_offsets()[q]);
    }
}

/// Two different degrees lie at different distances from the tonic.
pub proof fn lemma_spans_distinct(p: int, q: int)
    requires
        0 <= p < 7,
        0 <= q < 7,
        p != q,
    ensures
        major_offsets()[p] != major_offsets()[q],
{
}

} // verus!
