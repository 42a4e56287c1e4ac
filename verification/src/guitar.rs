//! Tuned strings and frets: which note sounds where on the neck.

use vstd::prelude::*;
use vstd::string::*;
use crate::theory::Note;

verus! {

/// A named tuning of six strings.
#[derive(Debug, Clone, Copy, PartialEq, Eq, Structural)]
pub enum Tuning {
    EADGBE,
    DADGBE,
    CGCFAD,
}

impl Tuning {
    /// The open strings, lowest first.
    pub open spec fn open_strings(self) -> Seq<Note> {
        match self {
            Tuning::EADGBE => seq![Note::E, Note::A, Note::D, Note::G, Note::B, Note::E],
            Tuning::DADGBE => seq![Note::D, Note::A, Note::D, Note::G, Note::B, Note::E],
            Tuning::CGCFAD => seq![Note::C, Note::G, Note::C, Note::F, Note::A, Note::D],
        }
    }

    /// The name of the tuning: its open strings, lowest first.
    pub open spec fn spelling(self) -> Seq<char> {
        match self {
            Tuning::EADGBE => "EADGBE"@,
            Tuning::DADGBE => "DADGBE"@,
            Tuning::CGCFAD => "CGCFAD"@,
        }
    }

    /// The name of the tuning as text.
    pub fn name(&self) -> (r: String)
        ensures
            r@ == self.spelling(),
    {
        match self {
            Tuning::EADGBE => String::from_str("EADGBE"),
            Tuning::DADGBE => String::from_str("DADGBE"),
            Tuning::CGCFAD => String::from_str("CGCFAD"),
        }
    }
}

/// A guitar in one of the named tunings.
#[derive(Debug, Clone, Copy, PartialEq, Eq, Structural)]
pub struct Guitar {
    pub tuning: Tuning,
}

/// Whether `place` is the first position of `strings` that holds `note`.
pub open spec fn first_at(strings: Seq<Note>, note: Note, place: int) -> bool {
    &&& 0 <= place < strings.len()
    &&& strings[place] == note
    &&& forall|j: int| 0 <= j < place ==> strings[j] != note
}

impl Guitar {
    /// The number of semitones from `string` up to the next `want`, between
    /// 0 and 11.
    pub open spec fn fret_between(string: Note, want: Note) -> int {
        (want.ordinal() - string.ordinal()) % 12
    }

    /// A guitar tuned to `tuning`.
    pub fn new(tuning: Tuning) -> (r: Guitar)
        ensures
            r.tuning == tuning,
    {
        Guitar { tuning: tuning }
    }

    /// The lowest fret on `string` that sounds `want`.
    pub fn derive_fret(string: Note, want: Note) -> (r: i32)
        ensures
            r == Guitar::fret_between(string, want),
            0 <= r < 12,
    {
        let sn: i32 = string.index() as i32;
        let wn: i32 = want.index() as i32;
        if wn < sn {
            ((wn + 12) - sn) % 12
        } else {
            (wn - sn) % 12
        }
    }

    /// Reduces any fret number to the fret of the same note within the first
    /// octave, between 0 and 11.
    pub fn normalise_fret(fret: i32) -> (r: i32)
        ensures
            r == fret % 12,
            0 <= r < 12,
    {
        match fret.checked_rem_euclid(12) {
            Some(reduced) => reduced,
            None => 0,
        }
    }

    /// Whether some string is tuned to `note`.
    pub fn has_string(&self, note: Note) -> (r: bool)
        ensures
            r == self.tuning.open_strings().contains(note),
    {
        let strings = self.strings();
        let mut i: usize = 0;
        while i < strings.len()
            invariant
                i <= strings@.len(),
                strings@ == self.tuning.open_strings(),
                forall|j: int| 0 <= j < i ==> strings@[j] != note,
            decreases strings@.len() - i,
        {
            if strings[i] == note {
                return true;
            }
            i = i + 1;
        }
        false
    }

    /// The number of the first string tuned to `note`, counting from 1 at
    /// the lowest string. The note must be that of some string.
    pub fn derive_string(&self, note: Note) -> (r: i32)
        requires
            self.tuning.open_strings().contains(note),
        ensures
            first_at(self.tuning.open_strings(), note, r - 1),
    {
        let strings = self.strings();
        let mut i: usize = 0;
        while i < strings.len()
            invariant
                i <= strings@.len(),
                strings@ == self.tuning.open_strings(),
                strings@.len() == 6,
                strings@.contains(note),
                forall|j: int| 0 <= j < i ==> strings@[j] != note,
            decreases strings@.len() - i,
        {
            if strings[i] == note {
                return i as i32 + 1;
            }
            i = i + 1;
        }
        proof {
            let w = choose|w: int| 0 <= w < strings@.len() && strings@[w] == note;
            assert(false);
        }
        0
    }

    /// The open strings, lowest first.
    pub fn strings(&self) -> (r: Vec<Note>)
        ensures
            r@ == self.tuning.open_strings(),
            r@.len() == 6,
    {
        match self.tuning {
            Tuning::EADGBE => vec![Note::E, Note::A, Note::D, Note::G, Note::B, Note::E],
            Tuning::DADGBE => vec![Note::D, Note::A, Note::D, Note::G, Note::B, Note::E],
            Tuning::CGCFAD => vec![Note::C, Note::G, Note::C, Note::F, Note::A, Note::D],
        }
    }
}

/// Fretting a string at the fret derived for a note sounds that note.
pub proof fn lemma_fret_round_trip(string: Note, want: Note)
    ensures
        0 <= Guitar::fret_between(string, want) < 12,
        string.transposed(Guitar::fret_between(string, want)) == want,
{
}

} // verus!
