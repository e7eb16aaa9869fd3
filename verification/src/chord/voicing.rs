use vstd::prelude::*;
use crate::note::{Note, PitchClass};

verus! {

/// The sequence that starts `by` places into `items` and ends with the
/// places before.
pub open spec fn rotate_left<T>(items: Seq<T>, by: int) -> Seq<T> {
    items.subrange(by, items.len() as int) + items.subrange(0, by)
}

/// `note`, `by` octaves lower.
pub open spec fn lower(note: Note, by: int) -> Note {
    Note { pitch_class: note.pitch_class, octave: (note.octave - by) as u8 }
}

/// The notes, all lowered by as many octaves as the first lies above
/// `octave`. Notes whose first is not above `octave` stay as they are.
pub open spec fn settle(notes: Seq<Note>, octave: u8) -> Seq<Note> {
    if notes.len() > 0 && notes[0].octave > octave {
        notes.map_values(|note: Note| lower(note, notes[0].octave - octave))
    } else {
        notes
    }
}

/// `note` where it follows `below` in an ascending voicing: one octave
/// above `below` where its pitch class is not higher, else in the octave
/// of `below` if it lay lower, else where it is.
pub open spec fn lift(below: Note, note: Note) -> Note {
    if note.pitch_class.ordinal() <= below.pitch_class.ordinal() {
        Note { pitch_class: note.pitch_class, octave: (below.octave + 1) as u8 }
    } else if note.octave < below.octave {
        Note { pitch_class: note.pitch_class, octave: below.octave }
    } else {
        note
    }
}

/// The notes from left to right, each lifted over the one that now
/// precedes it.
pub open spec fn ascend(notes: Seq<Note>) -> Seq<Note>
    decreases notes.len(),
{
    if notes.len() <= 1 {
        notes
    } else {
        let before = ascend(notes.drop_last());
        before.push(lift(before.last(), notes.last()))
    }
}

/// The note of pitch class `pitch` that follows `below` most closely: in
/// the octave of `below` where `pitch` is higher than the pitch class of
/// `below`, and in the next octave where it is not.
pub open spec fn place_above(below: Note, pitch: PitchClass) -> Note {
    Note {
        pitch_class: pitch,
        octave: if pitch.ordinal() <= below.pitch_class.ordinal() {
            (below.octave + 1) as u8
        } else {
            below.octave
        },
    }
}

/// Ascending keeps the number of notes, their pitch classes and the first
/// note, and lifts each later note over the one that precedes it in the
/// result.
pub proof fn ascend_steps(notes: Seq<Note>, n: int)
    requires
        0 <= n < notes.len(),
    ensures
        ascend(notes).len() == notes.len(),
        ascend(notes)[0] == notes[0],
        ascend(notes)[n].pitch_class == notes[n].pitch_class,
        n > 0 ==> ascend(notes)[n] == lift(ascend(notes)[n - 1], notes[n]),
    decreases notes.len(),
{
    if notes.len() > 1 {
        let shorter = notes.drop_last();
        ascend_steps(shorter, 0);
        if n < shorter.len() {
            ascend_steps(shorter, n);
        } else {
            ascend_steps(shorter, n - 1);
        }
    }
}

} // verus!
