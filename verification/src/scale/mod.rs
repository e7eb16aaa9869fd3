//! Scales: a root, a mode, and the notes they stand for.

pub mod errors;
pub mod mode;
pub mod scale;

pub use self::errors::ScaleError;
pub use self::mode::Mode;
pub use self::scale::Scale;
