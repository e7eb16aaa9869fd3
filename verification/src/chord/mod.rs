//! Chords: quality, number, inversion, and the notes they stand for.

pub mod chord;
pub mod errors;
pub mod inversion;
pub mod number;
pub mod quality;
pub mod table;
pub mod voicing;

pub use self::chord::Chord;
pub use self::errors::ChordError;
pub use self::inversion::Inversion;
pub use self::number::Number;
pub use self::quality::Quality;
