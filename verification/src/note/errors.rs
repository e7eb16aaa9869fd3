use vstd::prelude::*;

verus! {

/// Why a note could not be read.
#[derive(Debug, Clone, Copy, PartialEq, Eq, Structural)]
pub enum NoteError {
    /// The text does not start with a pitch letter.
    InvalidPitch,
}

impl NoteError {
    /// What went wrong, in words.
    pub open spec fn label(self) -> Seq<char> {
        match self {
            NoteError::InvalidPitch => "Invalid Pitch"@,
        }
    }

    /// What went wrong, in words.
    pub fn message(&self) -> (text: &'static str)
        ensures
            text@ == self.label(),
    {
        match self {
            NoteError::InvalidPitch => "Invalid Pitch",
        }
    }
}

} // verus!
