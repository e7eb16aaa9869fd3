//! Pitch classes and notes.

pub mod errors;
pub mod note;
pub mod pitch_class;

pub use self::errors::NoteError;
pub use self::note::{Note, Notes};
pub use self::pitch_class::PitchClass;
