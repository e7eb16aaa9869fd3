use vstd::prelude::*;
use vstd::utf8::encode_utf8;
use crate::interval::{steps_of, walk, walk_octaves, walk_positions, walk_prefix, Interval};
use crate::note::note::REFERENCE_OCTAVE;
use crate::note::pitch_class::leading_pitch;
use crate::note::{Note, Notes, PitchClass};
use crate::scale::errors::ScaleError;
use crate::scale::mode::{mode_steps_bounds, Mode};
use crate::text::{byte_slice, slice_from};

verus! {

/// What a scale is, as plain values.
pub struct ScaleView {
    /// The root of the scale.
    pub root: PitchClass,
    /// The octave of the root.
    pub octave: u8,
    /// The mode of the scale.
    pub mode: Mode,
    /// The steps between the notes of the scale.
    pub steps: Seq<int>,
}

impl ScaleView {
    /// The scale of the given mode on `root`, in the reference octave.
    pub open spec fn of(root: PitchClass, mode: Mode) -> ScaleView {
        ScaleView { root, octave: REFERENCE_OCTAVE, mode, steps: mode.steps() }
    }

    /// What every scale is: it starts in the reference octave, and its
    /// steps are those of its mode.
    pub open spec fn wf(self) -> bool {
        &&& self.octave == REFERENCE_OCTAVE
        &&& self.steps == self.mode.steps()
    }

    /// The root as a note.
    pub open spec fn root_note(self) -> Note {
        Note { pitch_class: self.root, octave: self.octave }
    }

    /// The notes of the scale: the walk from the root along the steps of
    /// the mode.
    pub open spec fn notes(self) -> Seq<Note> {
        walk(self.root_note(), self.steps)
    }
}

/// The scale that `text` names: a root, and after it a mode.
pub open spec fn scale_named_in(text: Seq<char>) -> Result<ScaleView, ScaleError> {
    match leading_pitch(text) {
        Err(_) => Err(ScaleError::InvalidPitch),
        Ok((root, span)) => match Mode::named_in(
            byte_slice(text, span.end as int, encode_utf8(text).len() as int),
        ) {
            Err(e) => Err(e),
            Ok((mode, _)) => Ok(ScaleView::of(root, mode)),
        },
    }
}

/// A scale has eight notes, from the root to the root an octave higher.
/// From one of its notes to the next the octave never falls, and it rises,
/// by exactly one, exactly where the pitch class does not rise.
pub proof fn scale_ascends(scale: ScaleView, n: int)
    requires
        scale.wf(),
        0 <= n < 7,
    ensures
        scale.notes().len() == 8,
        scale.notes()[0] == scale.root_note(),
        scale.notes()[7] == (Note { pitch_class: scale.root, octave: (scale.octave + 1) as u8 }),
        scale.notes()[n + 1].pitch_class.ordinal() <= scale.notes()[n].pitch_class.ordinal()
            ==> scale.notes()[n + 1].octave == scale.notes()[n].octave + 1,
        scale.notes()[n + 1].pitch_class.ordinal() > scale.notes()[n].pitch_class.ordinal()
            ==> scale.notes()[n + 1].octave == scale.notes()[n].octave,
{
    mode_steps_bounds(scale.mode);
    PitchClass::ordinal_is_injective(scale.root, scale.root);
    walk_prefix(scale.root_note(), scale.steps, 0);
    walk_octaves(scale.root_note(), scale.steps, n);
    walk_positions(scale.root_note(), scale.steps, 7);
    assert(scale.steps.take(7) =~= scale.steps);
    let last = scale.notes()[7];
    Note::position_is_injective(
        last,
        Note { pitch_class: scale.root, octave: (scale.octave + 1) as u8 },
    );
}

/// A scale.
#[derive(Debug)]
pub struct Scale {
    root: PitchClass,
    octave: u8,
    mode: Mode,
    intervals: Vec<Interval>,
}

impl View for Scale {
    type V = ScaleView;

    closed spec fn view(&self) -> ScaleView {
        ScaleView {
            root: self.root,
            octave: self.octave,
            mode: self.mode,
            steps: steps_of(self.intervals@),
        }
    }
}

impl Clone for Scale {
    fn clone(&self) -> (copy: Scale)
        ensures
            copy@ == self@,
    {
        proof {
            use_type_invariant(self);
        }
        let intervals = self.intervals.clone();
        assert(steps_of(intervals@) =~= steps_of(self.intervals@));
        Scale { root: self.root, octave: self.octave, mode: self.mode, intervals }
    }
}

impl Scale {
    /// Every scale is well formed.
    #[verifier::type_invariant]
    pub open spec fn wf(self) -> bool {
        self@.wf()
    }

    /// The scale of the given mode on `root`, in the reference octave.
    pub fn new(root: PitchClass, mode: Mode) -> (scale: Scale)
        ensures
            scale@ == ScaleView::of(root, mode),
    {
        Scale { root, octave: REFERENCE_OCTAVE, mode, intervals: mode.intervals() }
    }

    /// Reads a scale: a pitch, and after it the name of a mode.
    pub fn from_regex(string: &str) -> (found: Result<Scale, ScaleError>)
        ensures
            match scale_named_in(string@) {
                Ok(view) => found matches Ok(scale) && scale@ == view,
                Err(e) => found matches Err(f) && f == e,
            },
    {
        let (root, span) = match PitchClass::from_regex(string) {
            Ok(hit) => hit,
            Err(e) => {
                return Err(ScaleError::from(e));
            },
        };
        match Mode::from_regex(slice_from(string, span.end)) {
            Ok((mode, _)) => Ok(Scale::new(root, mode)),
            Err(e) => Err(e),
        }
    }

    /// The root of the scale.
    pub fn root(&self) -> (root: PitchClass)
        ensures
            root == self@.root,
    {
        self.root
    }

    /// The octave of the root.
    pub fn octave(&self) -> (octave: u8)
        ensures
            octave == self@.octave,
    {
        self.octave
    }

    /// The mode of the scale.
    pub fn mode(&self) -> (mode: Mode)
        ensures
            mode == self@.mode,
    {
        self.mode
    }

    /// The intervals between the notes of the scale.
    pub fn intervals(&self) -> (intervals: &Vec<Interval>)
        ensures
            steps_of(intervals@) == self@.steps,
    {
        &self.intervals
    }
}

impl Notes for Scale {
    open spec fn note_seq(&self) -> Seq<Note> {
        self@.notes()
    }

    /// The notes of the scale, lowest first.
    fn notes(&self) -> (notes: Vec<Note>) {
        proof {
            use_type_invariant(self);
            mode_steps_bounds(self.mode);
            PitchClass::ordinal_is_injective(self.root, self.root);
        }
        let root_note = Note { pitch_class: self.root, octave: self.octave };
        Interval::to_notes(root_note, self.intervals.clone())
    }
}

} // verus!
