//! Quiz questions with their answers, and the judging of typed guesses.

use vstd::prelude::*;
use vstd::string::*;
use crate::guitar::{first_at, Guitar, Tuning};
use crate::random::{generator, pick, roll};
use crate::text::{chars_of, decimal, integer_of, parse_integer, push_decimal, spells};
use crate::theory::{
    diatonic, ladder, rotated, Class, Degree, Interval, IntervalError, Mode, ModeError, Note, NoteError, Scale,
    DIATONIC,
};

verus! {

/// `std::io::Error` of the standard library, carried through as an opaque
/// value.
#[verifier::external_type_specification]
#[verifier::external_body]
pub struct ExIoError(std::io::Error);

/// What went wrong while talking to the solver.
#[derive(Debug)]
pub enum RendererError {
    IoError(std::io::Error),
}

impl From<std::io::Error> for RendererError {
    fn from(error: std::io::Error) -> (r: RendererError)
        ensures
            r == RendererError::IoError(error),
    {
        RendererError::IoError(error)
    }
}

impl vstd::std_specs::convert::FromSpecImpl<std::io::Error> for RendererError {
    open spec fn obeys_from_spec() -> bool {
        true
    }

    open spec fn from_spec(error: std::io::Error) -> RendererError {
        RendererError::IoError(error)
    }
}

/// The means of showing a question, a hint or a verdict to the solver and of
/// reading a reply. A reply comes back trimmed and in lower case.
pub trait Renderer {
    /// Shows the question.
    fn challenge(&mut self, question: &String) -> Result<(), RendererError>;

    /// Reads one reply.
    fn response(&mut self) -> Result<String, RendererError>;

    /// Shows the answer to a solver who asked for it.
    fn hint(&mut self, hint: String) -> Result<(), RendererError>;

    /// Shows whether a guess was right.
    fn mark(&mut self, result: bool) -> Result<(), RendererError>;
}

/// A canonical answer, tagged with the kind of question it belongs to.
#[derive(Clone, Copy, Debug, PartialEq, Eq, Structural)]
pub enum ChallengeType {
    Fret(i32),
    Note(Note),
    String(i32),
    Tuning(Note),
    Mode(Mode),
    Scale(Note),
    Interval(Interval),
}

/// What can go wrong while a challenge is made, shown or judged.
#[derive(Debug)]
pub enum ChallengeError {
    RendererError(RendererError),
    NoteError(NoteError),
    InvalidGuess(std::num::ParseIntError),
    ModeError(ModeError),
    IntervalError(IntervalError),
}

impl From<RendererError> for ChallengeError {
    fn from(error: RendererError) -> (r: ChallengeError)
        ensures
            r == ChallengeError::RendererError(error),
    {
        ChallengeError::RendererError(error)
    }
}

impl vstd::std_specs::convert::FromSpecImpl<RendererError> for ChallengeError {
    open spec fn obeys_from_spec() -> bool {
        true
    }

    open spec fn from_spec(error: RendererError) -> ChallengeError {
        ChallengeError::RendererError(error)
    }
}

impl From<NoteError> for ChallengeError {
    fn from(error: NoteError) -> (r: ChallengeError)
        ensures
            r == ChallengeError::NoteError(error),
    {
        ChallengeError::NoteError(error)
    }
}

impl vstd::std_specs::convert::FromSpecImpl<NoteError> for ChallengeError {
    open spec fn obeys_from_spec() -> bool {
        true
    }

    open spec fn from_spec(error: NoteError) -> ChallengeError {
        ChallengeError::NoteError(error)
    }
}

impl From<std::num::ParseIntError> for ChallengeError {
    fn from(error: std::num::ParseIntError) -> (r: ChallengeError)
        ensures
            r == ChallengeError::InvalidGuess(error),
    {
        ChallengeError::InvalidGuess(error)
    }
}

impl vstd::std_specs::convert::FromSpecImpl<std::num::ParseIntError> for ChallengeError {
    open spec fn obeys_from_spec() -> bool {
        true
    }

    open spec fn from_spec(error: std::num::ParseIntError) -> ChallengeError {
        ChallengeError::InvalidGuess(error)
    }
}

impl From<ModeError> for ChallengeError {
    fn from(error: ModeError) -> (r: ChallengeError)
        ensures
            r == ChallengeError::ModeError(error),
    {
        ChallengeError::ModeError(error)
    }
}

impl vstd::std_specs::convert::FromSpecImpl<ModeError> for ChallengeError {
    open spec fn obeys_from_spec() -> bool {
        true
    }

    open spec fn from_spec(error: ModeError) -> ChallengeError {
        ChallengeError::ModeError(error)
    }
}

impl From<IntervalError> for ChallengeError {
    fn from(error: IntervalError) -> (r: ChallengeError)
        ensures
            r == ChallengeError::IntervalError(error),
    {
        ChallengeError::IntervalError(error)
    }
}

impl vstd::std_specs::convert::FromSpecImpl<IntervalError> for ChallengeError {
    open spec fn obeys_from_spec() -> bool {
        true
    }

    open spec fn from_spec(error: IntervalError) -> ChallengeError {
        ChallengeError::IntervalError(error)
    }
}

/// A renderer's outcome as the outcome of a challenge: what went well stays
/// as it is, and a failure becomes the challenge's renderer error.
pub open spec fn rendering<T>(outcome: Result<T, RendererError>) -> Result<T, ChallengeError> {
    match outcome {
        Ok(value) => Ok(value),
        Err(error) => Err(ChallengeError::RendererError(error)),
    }
}

/// Takes what a renderer gave back and turns its failure into the error of
/// a challenge.
pub fn rendered<T>(outcome: Result<T, RendererError>) -> (r: Result<T, ChallengeError>)
    ensures
        r == rendering(outcome),
{
    match outcome {
        Ok(value) => Ok(value),
        Err(error) => Err(ChallengeError::RendererError(error)),
    }
}

/// What the quiz does with one reply: reveal the answer, or mark a guess.
#[derive(Debug, PartialEq, Eq)]
pub enum Reply {
    Hint(String),
    Mark(bool),
}

impl ChallengeType {
    /// The answer as shown in a hint: the tag, then the value in brackets.
    pub open spec fn shown(self) -> Seq<char> {
        match self {
            ChallengeType::Fret(fret) => "Fret("@ + decimal(fret as int) + ")"@,
            ChallengeType::Note(note) => "Note("@ + note.spelling() + ")"@,
            ChallengeType::String(number) => "String("@ + decimal(number as int) + ")"@,
            ChallengeType::Tuning(note) => "Tuning("@ + note.spelling() + ")"@,
            ChallengeType::Mode(mode) => "Mode("@ + mode.spelling() + ")"@,
            ChallengeType::Scale(note) => "Scale("@ + note.spelling() + ")"@,
            ChallengeType::Interval(interval) => "Interval("@ + interval.spelling() + ")"@,
        }
    }

    /// Whether a number is the right guess: a fret counts modulo 12, a
    /// string number as it is. No number fits an answer of another kind.
    pub open spec fn fits_number(self, guess: int) -> bool {
        match self {
            ChallengeType::Fret(fret) => guess % 12 == fret,
            ChallengeType::String(number) => guess == number,
            _ => false,
        }
    }

    /// How a guess is judged: right, wrong, or not readable as the kind of
    /// value that the answer's tag asks for.
    pub open spec fn verdict(self, guess: Seq<char>) -> Option<bool> {
        match self {
            ChallengeType::Fret(_) | ChallengeType::String(_) => match integer_of(guess) {
                Some(n) => Some(self.fits_number(n as int)),
                None => None,
            },
            ChallengeType::Note(note) | ChallengeType::Tuning(note) | ChallengeType::Scale(
                note,
            ) => match Note::parsed(guess) {
                Ok(guessed) => Some(guessed == note),
                Err(_) => None,
            },
            ChallengeType::Mode(mode) => match Mode::parsed(guess) {
                Ok(guessed) => Some(guessed == mode),
                Err(_) => None,
            },
            ChallengeType::Interval(interval) => match Interval::parsed(guess) {
                Ok(guessed) => Some(guessed == interval),
                Err(_) => None,
            },
        }
    }

    /// Compares a number that was read from a guess with the answer.
    pub fn accepts_number(&self, guess: i32) -> (r: bool)
        ensures
            r == self.fits_number(guess as int),
    {
        match self {
            ChallengeType::Fret(fret) => Guitar::normalise_fret(guess) == *fret,
            ChallengeType::String(number) => guess == *number,
            _ => false,
        }
    }

    /// The text of the answer for a hint.
    pub fn describe(&self) -> (r: String)
        ensures
            r@ == self.shown(),
    {
        match self {
            ChallengeType::Fret(fret) => {
                let mut out = String::from_str("Fret(");
                push_decimal(&mut out, *fret);
                out.append(")");
                out
            },
            ChallengeType::Note(note) => {
                let mut out = String::from_str("Note(");
                out.append(note.name().as_str());
                out.append(")");
                out
            },
            ChallengeType::String(number) => {
                let mut out = String::from_str("String(");
                push_decimal(&mut out, *number);
                out.append(")");
                out
            },
            ChallengeType::Tuning(note) => {
                let mut out = String::from_str("Tuning(");
                out.append(note.name().as_str());
                out.append(")");
                out
            },
            ChallengeType::Mode(mode) => {
                let mut out = String::from_str("Mode(");
                out.append(mode.name().as_str());
                out.append(")");
                out
            },
            ChallengeType::Scale(note) => {
                let mut out = String::from_str("Scale(");
                out.append(note.name().as_str());
                out.append(")");
                out
            },
            ChallengeType::Interval(interval) => {
                let mut out = String::from_str("Interval(");
                out.append(interval.name().as_str());
                out.append(")");
                out
            },
        }
    }
}

/// A question with its canonical answer.
pub struct Challenge {
    question: String,
    answer: ChallengeType,
}

/// The wording of a question for the fret of a note on a string.
pub open spec fn fret_question(tuning: Tuning, note: Note, string: Note) -> Seq<char> {
    "With "@ + tuning.spelling() + " tuning, which fret is "@ + note.spelling() + " on "@
        + string.spelling() + "?"@
}

/// The wording of a question for the note at a fret of a string.
pub open spec fn note_question(tuning: Tuning, fret: int, string: Note) -> Seq<char> {
    "With "@ + tuning.spelling() + " tuning, what note is fret "@ + decimal(fret) + " on "@
        + string.spelling() + "?"@
}

/// The wording of a question for the number of a string.
pub open spec fn string_question(tuning: Tuning, string: Note) -> Seq<char> {
    "With "@ + tuning.spelling() + " tuning, what string is "@ + string.spelling() + "?"@
}

/// The wording of a question for the note of an open string.
pub open spec fn tuning_question(tuning: Tuning, number: int) -> Seq<char> {
    "With "@ + tuning.spelling() + " tuning, what is the note of open string "@ + decimal(number)
        + "?"@
}

/// The wording of a question for the mode whose degree sounds a note.
pub open spec fn mode_question(key: Note, degree: Degree, heard: Note) -> Seq<char> {
    "In the key of "@ + key.spelling() + " what mode has a "@ + degree.spelling() + " of "@
        + heard.spelling()
}

/// The wording of a question for the note at a degree of a major scale.
pub open spec fn scale_question(key: Note, degree: Degree) -> Seq<char> {
    "In the key of "@ + key.spelling() + " major, what is the "@ + degree.spelling() + " note?"@
}

/// The wording of a question for the width of a step of the diatonic scale.
pub open spec fn interval_question(number: int) -> Seq<char> {
    "In the diatonic scale, what is the width of interval "@ + decimal(number) + "?"@
}

/// A pitch class drawn at random.
fn choose_note() -> (r: Note)
    ensures
        Note::every().contains(r),
{
    let notes = Note::all();
    match pick(&notes, &mut generator()) {
        Some(note) => note,
        None => Note::C,
    }
}

/// One of the open strings of the guitar, drawn at random.
fn choose_string(guitar: &Guitar) -> (r: Note)
    ensures
        guitar.tuning.open_strings().contains(r),
{
    let strings = guitar.strings();
    match pick(&strings, &mut generator()) {
        Some(string) => string,
        None => strings[0],
    }
}

/// One of the frets 0 to 11, drawn at random.
fn choose_fret() -> (r: i32)
    ensures
        0 <= r < 12,
{
    roll(&mut generator(), 0, 12)
}

/// A mode drawn at random.
fn choose_mode() -> (r: Mode)
    ensures
        Mode::every().contains(r),
{
    let modes = Mode::all();
    match pick(&modes, &mut generator()) {
        Some(mode) => mode,
        None => Mode::Ionian,
    }
}

/// A scale degree drawn at random.
fn choose_degree() -> (r: Degree)
    ensures
        Degree::every().contains(r),
{
    let degrees = Degree::all();
    match pick(&degrees, &mut generator()) {
        Some(degree) => degree,
        None => Degree::Tonic,
    }
}

/// The position of one of the steps, drawn at random.
fn choose_index(steps: &[Interval; 6]) -> (r: usize)
    ensures
        r < 6,
{
    roll(&mut generator(), 0, steps.len() as i32) as usize
}

impl Challenge {
    /// The wording of the question.
    pub closed spec fn text(&self) -> Seq<char> {
        self.question@
    }

    /// The canonical answer.
    pub closed spec fn key(&self) -> ChallengeType {
        self.answer
    }

    /// Whether this is the fret question for a note on a string.
    pub open spec fn asks_fret(&self, tuning: Tuning, string: Note, note: Note) -> bool {
        &&& self.text() == fret_question(tuning, note, string)
        &&& self.key() == ChallengeType::Fret(Guitar::fret_between(string, note) as i32)
    }

    /// Whether this is the note question for a fret of a string.
    pub open spec fn asks_note(&self, tuning: Tuning, string: Note, fret: int) -> bool {
        &&& self.text() == note_question(tuning, fret, string)
        &&& self.key() == ChallengeType::Note(string.transposed(fret))
    }

    /// Whether this is the question for the number of a string.
    pub open spec fn asks_string(&self, tuning: Tuning, string: Note) -> bool {
        &&& self.text() == string_question(tuning, string)
        &&& self.key() is String
        &&& first_at(tuning.open_strings(), string, self.key()->String_0 - 1)
    }

    /// Whether this is the question for the note of the first open string
    /// tuned to `string`.
    pub open spec fn asks_tuning(&self, tuning: Tuning, string: Note) -> bool {
        &&& self.key() == ChallengeType::Tuning(string)
        &&& exists|number: int|
            first_at(tuning.open_strings(), string, number - 1) && #[trigger] tuning_question(
                tuning,
                number,
            ) == self.text()
    }

    /// Whether this is the question for a mode in the key of C.
    pub open spec fn asks_mode(&self, mode: Mode) -> bool {
        &&& self.text() == mode_question(
            Note::C,
            Degree::Tonic,
            c_scale(mode)[Degree::Tonic.ordinal()],
        )
        &&& self.key() == ChallengeType::Mode(mode)
    }

    /// Whether this is the question for a degree of C major.
    pub open spec fn asks_scale(&self, degree: Degree) -> bool {
        &&& self.text() == scale_question(Note::C, degree)
        &&& self.key() == ChallengeType::Scale(c_scale(Mode::Ionian)[degree.ordinal()])
    }

    /// Whether this is the question for the step at `index` of the diatonic
    /// pattern, counted from 0.
    pub open spec fn asks_interval(&self, index: int) -> bool {
        &&& self.text() == interval_question(index + 1)
        &&& self.key() == ChallengeType::Interval(diatonic()[index])
    }

    /// Asks for the fret at which `string` sounds `note`.
    pub fn fret_of(guitar: &Guitar, string: Note, note: Note) -> (r: Challenge)
        ensures
            r.asks_fret(guitar.tuning, string, note),
    {
        let mut question = String::from_str("With ");
        question.append(guitar.tuning.name().as_str());
        question.append(" tuning, which fret is ");
        question.append(note.name().as_str());
        question.append(" on ");
        question.append(string.name().as_str());
        question.append("?");
        Challenge { question, answer: ChallengeType::Fret(Guitar::derive_fret(string, note)) }
    }

    /// Asks for the note that `string` sounds at `fret`.
    pub fn note_of(guitar: &Guitar, string: Note, fret: i32) -> (r: Result<
        Challenge,
        ChallengeError,
    >)
        ensures
            r is Ok,
            r->Ok_0.asks_note(guitar.tuning, string, fret as int),
    {
        let mut question = String::from_str("With ");
        question.append(guitar.tuning.name().as_str());
        question.append(" tuning, what note is fret ");
        push_decimal(&mut question, fret);
        question.append(" on ");
        question.append(string.name().as_str());
        question.append("?");
        match string.derive(fret) {
            Ok(note) => Ok(Challenge { question, answer: ChallengeType::Note(note) }),
            Err(e) => Err(ChallengeError::NoteError(e)),
        }
    }

    /// Asks for the number of the first string tuned to `string`.
    pub fn string_of(guitar: &Guitar, string: Note) -> (r: Challenge)
        requires
            guitar.tuning.open_strings().contains(string),
        ensures
            r.asks_string(guitar.tuning, string),
    {
        let mut question = String::from_str("With ");
        question.append(guitar.tuning.name().as_str());
        question.append(" tuning, what string is ");
        question.append(string.name().as_str());
        question.append("?");
        Challenge { question, answer: ChallengeType::String(guitar.derive_string(string)) }
    }

    /// Asks for the note of the first open string tuned to `string`, which
    /// the question names by its number.
    pub fn tuning_of(guitar: &Guitar, string: Note) -> (r: Challenge)
        requires
            guitar.tuning.open_strings().contains(string),
        ensures
            r.asks_tuning(guitar.tuning, string),
    {
        let number = guitar.derive_string(string);
        let mut question = String::from_str("With ");
        question.append(guitar.tuning.name().as_str());
        question.append(" tuning, what is the note of open string ");
        push_decimal(&mut question, number);
        question.append("?");
        assert(question@ == tuning_question(guitar.tuning, number as int));
        Challenge { question, answer: ChallengeType::Tuning(string) }
    }

    /// Asks which mode of the diatonic pattern in C starts on the note that
    /// `mode` starts on.
    pub fn mode_of(mode: Mode) -> (r: Result<Challenge, ChallengeError>)
        ensures
            r is Ok,
            r->Ok_0.asks_mode(mode),
    {
        let key = Note::C;
        let degree = Degree::Tonic;
        let scale = match Scale::new(Class::Heptatonic(&DIATONIC, mode), key) {
            Ok(scale) => scale,
            Err(e) => {
                return Err(ChallengeError::NoteError(e));
            },
        };
        assert(DIATONIC@ =~= diatonic());
        let mut question = String::from_str("In the key of ");
        question.append(key.name().as_str());
        question.append(" what mode has a ");
        question.append(degree.name().as_str());
        question.append(" of ");
        question.append(scale.note(degree).name().as_str());
        Ok(Challenge { question, answer: ChallengeType::Mode(mode) })
    }

    /// Asks for the note at `degree` of C major.
    pub fn scale_of(degree: Degree) -> (r: Result<Challenge, ChallengeError>)
        ensures
            r is Ok,
            r->Ok_0.asks_scale(degree),
    {
        let key = Note::C;
        let mode = Mode::Ionian;
        let scale = match Scale::new(Class::Heptatonic(&DIATONIC, mode), key) {
            Ok(scale) => scale,
            Err(e) => {
                return Err(ChallengeError::NoteError(e));
            },
        };
        assert(DIATONIC@ =~= diatonic());
        let mut question = String::from_str("In the key of ");
        question.append(key.name().as_str());
        question.append(" major, what is the ");
        question.append(degree.name().as_str());
        question.append(" note?");
        Ok(Challenge { question, answer: ChallengeType::Scale(scale.note(degree)) })
    }

    /// Asks for the width of the step at `index` of the diatonic pattern,
    /// which the question numbers from 1.
    pub fn interval_of(index: usize) -> (r: Challenge)
        requires
            index < 6,
        ensures
            r.asks_interval(index as int),
    {
        let class = &DIATONIC;
        assert(DIATONIC@ =~= diatonic());
        let mut question = String::from_str(
            "In the diatonic scale, what is the width of interval ",
        );
        push_decimal(&mut question, index as i32 + 1);
        question.append("?");
        Challenge { question, answer: ChallengeType::Interval(class[index]) }
    }

    /// A fret question on a string of the guitar and a note, both drawn at
    /// random.
    pub fn fret(guitar: Guitar) -> (r: Result<Challenge, ChallengeError>)
        ensures
            r is Ok,
            exists|string: Note, note: Note|
                guitar.tuning.open_strings().contains(string) && #[trigger] r->Ok_0.asks_fret(
                    guitar.tuning,
                    string,
                    note,
                ),
    {
        let cs = choose_string(&guitar);
        let cn = choose_note();
        let challenge = Challenge::fret_of(&guitar, cs, cn);
        let made = Ok(challenge);
        assert(made->Ok_0.asks_fret(guitar.tuning, cs, cn));
        made
    }

    /// A note question on a string of the guitar and one of the frets 0 to
    /// 11, both drawn at random.
    pub fn note(guitar: Guitar) -> (r: Result<Challenge, ChallengeError>)
        ensures
            r is Ok,
            exists|string: Note, fret: int|
                guitar.tuning.open_strings().contains(string) && 0 <= fret < 12
                    && #[trigger] r->Ok_0.asks_note(guitar.tuning, string, fret),
    {
        let cs = choose_string(&guitar);
        let cf = choose_fret();
        let made = Challenge::note_of(&guitar, cs, cf);
        assert(made->Ok_0.asks_note(guitar.tuning, cs, cf as int));
        made
    }

    /// A string-number question on a string of the guitar drawn at random.
    pub fn string(guitar: Guitar) -> (r: Result<Challenge, ChallengeError>)
        ensures
            r is Ok,
            exists|string: Note|
                guitar.tuning.open_strings().contains(string) && #[trigger] r->Ok_0.asks_string(
                    guitar.tuning,
                    string,
                ),
    {
        let cs = choose_string(&guitar);
        let challenge = Challenge::string_of(&guitar, cs);
        let made = Ok(challenge);
        assert(made->Ok_0.asks_string(guitar.tuning, cs));
        made
    }

    /// An open-string question on a string of the guitar drawn at random.
    pub fn tuning(guitar: Guitar) -> (r: Result<Challenge, ChallengeError>)
        ensures
            r is Ok,
            exists|string: Note|
                guitar.tuning.open_strings().contains(string) && #[trigger] r->Ok_0.asks_tuning(
                    guitar.tuning,
                    string,
                ),
    {
        let cs = choose_string(&guitar);
        let challenge = Challenge::tuning_of(&guitar, cs);
        let made = Ok(challenge);
        assert(made->Ok_0.asks_tuning(guitar.tuning, cs));
        made
    }

    /// A mode question on a mode drawn at random.
    pub fn mode() -> (r: Result<Challenge, ChallengeError>)
        ensures
            r is Ok,
            exists|mode: Mode| #[trigger] r->Ok_0.asks_mode(mode),
    {
        let cm = choose_mode();
        let made = Challenge::mode_of(cm);
        assert(made->Ok_0.asks_mode(cm));
        made
    }

    /// A scale-degree question on a degree drawn at random.
    pub fn scale() -> (r: Result<Challenge, ChallengeError>)
        ensures
            r is Ok,
            exists|degree: Degree| #[trigger] r->Ok_0.asks_scale(degree),
    {
        let degree = choose_degree();
        let made = Challenge::scale_of(degree);
        assert(made->Ok_0.asks_scale(degree));
        made
    }

    /// An interval question on one of the six steps of the diatonic
    /// pattern, drawn at random.
    pub fn interval() -> (r: Result<Challenge, ChallengeError>)
        ensures
            r is Ok,
            exists|index: int| 0 <= index < 6 && #[trigger] r->Ok_0.asks_interval(index),
    {
        let index = choose_index(&DIATONIC);
        let challenge = Challenge::interval_of(index);
        let made = Ok(challenge);
        assert(made->Ok_0.asks_interval(index as int));
        made
    }

    /// The wording of the question.
    pub fn question(&self) -> (r: &String)
        ensures
            r@ == self.text(),
    {
        &self.question
    }

    /// The canonical answer.
    pub fn peek(&self) -> (r: ChallengeType)
        ensures
            r == self.key(),
    {
        self.answer
    }

    /// Shows the question. Whether that works is up to the renderer; its
    /// failure is the only error.
    pub fn issue<R: Renderer + ?Sized>(&self, renderer: &mut R) -> (r: Result<(), ChallengeError>)
        ensures
            r matches Err(e) ==> e is RendererError,
    {
        rendered(renderer.challenge(self.question()))
    }

    /// Reads a guess as the kind of value that the answer's tag asks for and
    /// compares it with the answer. A guess that cannot be read gives the
    /// error of its reader.
    pub fn validate(&self, guess: String) -> (r: Result<bool, ChallengeError>)
        ensures
            match self.key().verdict(guess@) {
                Some(correct) => r == Ok::<bool, ChallengeError>(correct),
                None => r is Err,
            },
            r matches Err(e) ==> match self.key() {
                ChallengeType::Fret(_) | ChallengeType::String(_) => e is InvalidGuess,
                ChallengeType::Note(_) | ChallengeType::Tuning(_) | ChallengeType::Scale(_) => e
                    == ChallengeError::NoteError(NoteError::NotationError),
                ChallengeType::Mode(_) => e == ChallengeError::ModeError(
                    ModeError::UnrecognisedMode,
                ),
                ChallengeType::Interval(_) => e == ChallengeError::IntervalError(
                    IntervalError::UnrecognisedInterval,
                ),
            },
    {
        match self.answer {
            ChallengeType::Fret(_) | ChallengeType::String(_) => {
                match parse_integer(guess.as_str()) {
                    Ok(number) => Ok(self.answer.accepts_number(number)),
                    Err(e) => Err(ChallengeError::InvalidGuess(e)),
                }
            },
            ChallengeType::Note(answer) | ChallengeType::Tuning(answer) | ChallengeType::Scale(
                answer,
            ) => {
                match Note::parse(guess.as_str()) {
                    Ok(note) => Ok(note == answer),
                    Err(e) => Err(ChallengeError::NoteError(e)),
                }
            },
            ChallengeType::Mode(answer) => {
                match Mode::parse(guess.as_str()) {
                    Ok(mode) => Ok(mode == answer),
                    Err(e) => Err(ChallengeError::ModeError(e)),
                }
            },
            ChallengeType::Interval(answer) => {
                match Interval::parse(guess.as_str()) {
                    Ok(interval) => Ok(interval == answer),
                    Err(e) => Err(ChallengeError::IntervalError(e)),
                }
            },
        }
    }

    /// What one reply leads to. The word `peek` reveals the answer and
    /// judges nothing. Anything else is a guess: it is marked right where it
    /// reads as the answer, and wrong otherwise, also where it cannot be read
    /// at all.
    pub fn respond(&self, response: &str) -> (r: Reply)
        ensures
            response@ == "peek"@ ==> (r matches Reply::Hint(hint) && hint@ == self.key().shown()),
            response@ != "peek"@ ==> r == Reply::Mark(
                self.key().verdict(response@) == Some(true),
            ),
    {
        if is_peek(response) {
            Reply::Hint(self.answer.describe())
        } else {
            let correct = match self.validate(String::from_str(response)) {
                Ok(correct) => correct,
                Err(_) => false,
            };
            Reply::Mark(correct)
        }
    }
}

/// The scale of C in a mode of the diatonic pattern.
pub open spec fn c_scale(mode: Mode) -> Seq<Note> {
    rotated(ladder(Note::C, diatonic()), mode.ordinal())
}

/// Whether a reply is the word that asks for the answer.
fn is_peek(response: &str) -> (r: bool)
    ensures
        r == (response@ == "peek"@),
{
    proof {
        reveal_strlit("peek");
    }
    if response.unicode_len() != 4 {
        false
    } else {
        let chars = chars_of(response);
        spells(&chars, "peek")
    }
}

impl Reply {
    /// Whether the reply ends the challenge: only a guess marked right does.
    pub fn ends(&self) -> (r: bool)
        ensures
            r == (*self == Reply::Mark(true)),
    {
        match self {
            Reply::Mark(correct) => *correct,
            Reply::Hint(_) => false,
        }
    }
}

/// One turn of a challenge that has been shown: reads a reply, then shows
/// the hint or the verdict that it leads to. Gives `true` once a guess was
/// marked right. A guess that cannot be read is marked wrong and is no
/// error: the only error is a failure of the renderer.
pub fn attempt<R: Renderer + ?Sized>(challenge: &Challenge, renderer: &mut R) -> (r: Result<
    bool,
    ChallengeError,
>)
    ensures
        r matches Err(e) ==> e is RendererError,
{
    let response = match rendered(renderer.response()) {
        Ok(response) => response,
        Err(e) => {
            return Err(e);
        },
    };
    let reply = challenge.respond(response.as_str());
    let done = reply.ends();
    let shown = match reply {
        Reply::Hint(hint) => renderer.hint(hint),
        Reply::Mark(correct) => renderer.mark(correct),
    };
    match rendered(shown) {
        Ok(()) => Ok(done),
        Err(e) => Err(e),
    }
}

/// A fret between 0 and 11 is guessed right by exactly the numbers that
/// differ from it by whole octaves.
pub proof fn lemma_fret_guesses(fret: i32, guess: Seq<char>)
    requires
        0 <= fret < 12,
    ensures
        ChallengeType::Fret(fret).verdict(guess) == Some(true) <==> (integer_of(guess) is Some && (
        integer_of(guess)->Some_0 - fret) % 12 == 0),
{
    if integer_of(guess) is Some {
        let n = integer_of(guess)->Some_0 as int;
        assert(n % 12 == fret <==> (n - fret) % 12 == 0) by {
            vstd::arithmetic::div_mod::lemma_sub_mod_noop(n, fret as int, 12);
            vstd::arithmetic::div_mod::lemma_fundamental_div_mod(n, 12);
            vstd::arithmetic::div_mod::lemma_fundamental_div_mod(n - fret, 12);
        }
    }
}

} // verus!
