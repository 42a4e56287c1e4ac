//! Music theory and guitar fretboard drills: pitch classes, diatonic scales
//! and modes, tuned strings and frets, and the questions, answers and
//! judging rules of an interactive quiz built on them.

pub mod text;
pub mod theory;
pub mod guitar;
mod random;
pub mod challenge;
pub mod script;
