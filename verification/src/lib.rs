//! Chords and scales from their names: the notation grammar and the note
//! arithmetic behind it, with machine-checked contracts.

pub mod chord;
pub mod interval;
pub mod note;
pub mod pattern;
pub mod scale;
pub mod text;
