use std::cmp::Ordering;
use vstd::prelude::*;
use vstd::std_specs::cmp::PartialOrdSpecImpl;
use super::pitch_class::PitchClass;

verus! {

/// The octave that chords and scales start in.
pub const REFERENCE_OCTAVE: u8 = 4;

/// A pitch class in an octave, in scientific pitch notation.
#[derive(Debug, Clone, Copy, PartialEq, Eq, Structural)]
pub struct Note {
    /// The pitch class of the note.
    pub pitch_class: PitchClass,
    /// The octave of the note.
    pub octave: u8,
}

impl Note {
    /// Semitones above the C of octave 0: notes are ordered by octave
    /// first and by pitch class second, which is the order of their
    /// positions.
    pub open spec fn position(self) -> int {
        12 * self.octave + self.pitch_class.ordinal()
    }

    /// The note at a position.
    pub open spec fn at(position: int) -> Note {
        Note { pitch_class: PitchClass::at(position), octave: (position / 12) as u8 }
    }

    /// Positions and notes correspond one to one.
    pub proof fn position_is_injective(a: Note, b: Note)
        ensures
            0 <= a.position() < 12 * 256,
            Note::at(a.position()) == a,
            a.position() == b.position() ==> a == b,
            a.position() < b.position() <==> a.octave < b.octave || (a.octave == b.octave
                && a.pitch_class.ordinal() < b.pitch_class.ordinal()),
    {
        PitchClass::ordinal_is_injective(a.pitch_class, b.pitch_class);
    }

    /// A note from its parts.
    pub fn new(pitch_class: PitchClass, octave: u8) -> (note: Note)
        ensures
            note.pitch_class == pitch_class,
            note.octave == octave,
    {
        Note { pitch_class, octave }
    }

    /// Semitones above the C of octave 0.
    pub fn semitones_from_zero(&self) -> (position: u16)
        ensures
            position == self.position(),
    {
        let octave: u16 = self.octave.into();
        let ordinal: u16 = self.pitch_class.to_u8().into();
        12 * octave + ordinal
    }

    /// Whether this note sounds lower than `other`.
    pub fn is_below(&self, other: &Note) -> (lower: bool)
        ensures
            lower == (self.position() < other.position()),
    {
        *self < *other
    }
}

impl PartialOrd for Note {
    /// Notes are ordered by octave first and by pitch class second.
    fn partial_cmp(&self, other: &Note) -> (order: Option<Ordering>) {
        let mine = self.semitones_from_zero();
        let theirs = other.semitones_from_zero();
        if mine < theirs {
            Some(Ordering::Less)
        } else if mine == theirs {
            Some(Ordering::Equal)
        } else {
            Some(Ordering::Greater)
        }
    }
}

impl PartialOrdSpecImpl for Note {
    open spec fn obeys_partial_cmp_spec() -> bool {
        true
    }

    open spec fn partial_cmp_spec(&self, other: &Note) -> Option<Ordering> {
        if self.position() < other.position() {
            Some(Ordering::Less)
        } else if self.position() == other.position() {
            Some(Ordering::Equal)
        } else {
            Some(Ordering::Greater)
        }
    }
}

/// What stands for a sequence of notes.
pub trait Notes {
    /// The notes that this value stands for, lowest first.
    spec fn note_seq(&self) -> Seq<Note>;

    /// The notes that this value stands for, lowest first.
    fn notes(&self) -> (notes: Vec<Note>)
        ensures
            notes@ == self.note_seq(),
    ;
}

} // verus!
