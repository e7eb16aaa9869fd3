use vstd::prelude::*;
use vstd::std_specs::convert::FromSpecImpl;
use crate::note::errors::NoteError;

verus! {

/// Why a scale could not be read.
#[derive(Debug, Clone, Copy, PartialEq, Eq, Structural)]
pub enum ScaleError {
    /// The text does not start with a pitch letter.
    InvalidPitch,
    /// The text after the root names no mode.
    ModeFromRegex,
}

impl ScaleError {
    /// What went wrong, in words.
    pub open spec fn label(self) -> Seq<char> {
        match self {
            ScaleError::InvalidPitch => "Invalid Pitch"@,
            ScaleError::ModeFromRegex => "Invalid Mode"@,
        }
    }

    /// What went wrong, in words.
    pub fn message(&self) -> (text: &'static str)
        ensures
            text@ == self.label(),
    {
        match self {
            ScaleError::InvalidPitch => "Invalid Pitch",
            ScaleError::ModeFromRegex => "Invalid Mode",
        }
    }
}

impl From<NoteError> for ScaleError {
    /// A scale whose root cannot be read has no valid pitch.
    fn from(e: NoteError) -> (error: ScaleError) {
        match e {
            NoteError::InvalidPitch => ScaleError::InvalidPitch,
        }
    }
}

impl FromSpecImpl<NoteError> for ScaleError {
    open spec fn obeys_from_spec() -> bool {
        true
    }

    open spec fn from_spec(e: NoteError) -> ScaleError {
        ScaleError::InvalidPitch
    }
}

} // verus!
