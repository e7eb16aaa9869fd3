use vstd::prelude::*;
use vstd::std_specs::convert::FromSpecImpl;
use crate::note::errors::NoteError;

verus! {

/// Why a chord could not be read.
#[derive(Debug, Clone, Copy, PartialEq, Eq, Structural)]
pub enum ChordError {
    /// The text does not start with a pitch letter.
    InvalidPitch,
    /// The text after the root names no chord quality.
    QualityFromRegex,
    /// The number aliases could not be tried.
    NumberFromRegex,
    /// The text after the slash is neither a number nor a pitch.
    InversionFormat,
}

impl ChordError {
    /// What went wrong, in words.
    pub open spec fn label(self) -> Seq<char> {
        match self {
            ChordError::InvalidPitch => "Invalid Pitch"@,
            ChordError::QualityFromRegex => "Invalid Quality"@,
            ChordError::NumberFromRegex => "Invalid Number"@,
            ChordError::InversionFormat => "Invalid Inversion"@,
        }
    }

    /// What went wrong, in words.
    pub fn message(&self) -> (text: &'static str)
        ensures
            text@ == self.label(),
    {
        match self {
            ChordError::InvalidPitch => "Invalid Pitch",
            ChordError::QualityFromRegex => "Invalid Quality",
            ChordError::NumberFromRegex => "Invalid Number",
            ChordError::InversionFormat => "Invalid Inversion",
        }
    }
}

impl From<NoteError> for ChordError {
    /// A chord whose root cannot be read has no valid pitch.
    fn from(e: NoteError) -> (error: ChordError) {
        match e {
            NoteError::InvalidPitch => ChordError::InvalidPitch,
        }
    }
}

impl FromSpecImpl<NoteError> for ChordError {
    open spec fn obeys_from_spec() -> bool {
        true
    }

    open spec fn from_spec(e: NoteError) -> ChordError {
        ChordError::InvalidPitch
    }
}

} // verus!
