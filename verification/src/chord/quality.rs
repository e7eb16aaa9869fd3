use vstd::prelude::*;
use crate::chord::errors::ChordError;
use crate::pattern::{recognize, scan, span_fits, MatchSpan, Scan};

verus! {

/// The names of the half-diminished quality.
pub const REGEX_HALF_DIMINISHED: &'static str =
    "\\b(half diminished|halfdiminished|Half Diminished|HalfDiminished)\\b";

/// The names of the minor-major quality.
pub const REGEX_MINOR_MAJOR: &'static str =
    "\\b(minor major|minormajor|Minor Major|MinorMajor)\\b";

/// The names of the augmented-major quality.
pub const REGEX_AUGMENTED_MAJOR: &'static str =
    "\\b(augmented major|augmentedmajor|Augmented Major|AugmentedMajor)\\b";

/// The names of the major quality.
pub const REGEX_MAJOR: &'static str = "\\b(M|maj|Maj|major|Major)\\b";

/// The names of the minor quality.
pub const REGEX_MINOR: &'static str = "\\b(m|min|Min|minor|Minor)\\b";

/// The names of the diminished quality.
pub const REGEX_DIMINISHED: &'static str = "\\b(dim|diminished|Diminished)\\b";

/// The names of the augmented quality.
pub const REGEX_AUGMENTED: &'static str = "\\b(aug|augmented|Augmented)\\b";

/// The names of the dominant quality.
pub const REGEX_DOMINANT: &'static str = "\\b(dom|dominant|Dominant)\\b";

/// The names of the quality with a suspended second.
pub const REGEX_SUSPENDED2: &'static str = "\\b(sus2|suspended2|Suspended2)\\b";

/// The names of the quality with a suspended fourth.
pub const REGEX_SUSPENDED4: &'static str = "\\b(sus4|suspended4|Suspended4)\\b";

/// The colour of a chord. It has a meaning only together with a number.
#[derive(Debug, Clone, Copy, PartialEq, Eq, Structural)]
pub enum Quality {
    /// A major third, then a minor third.
    Major,
    /// A minor third, then a major third.
    Minor,
    /// A second in place of the third.
    Suspended2,
    /// A fourth in place of the third.
    Suspended4,
    /// Two major thirds.
    Augmented,
    /// Two minor thirds.
    Diminished,
    /// A diminished triad below a minor seventh.
    HalfDiminished,
    /// A minor triad below a major seventh.
    MinorMajor,
    /// An augmented triad below a major seventh.
    AugmentedMajor,
    /// A major triad below a minor seventh.
    Dominant,
}

impl Quality {
    /// The aliases of each quality, in the order in which they are tried.
    ///
    /// The two-word qualities come first: each holds the name of a one-word
    /// quality, which would otherwise take the text meant for it.
    pub open spec fn aliases() -> Seq<(&'static str, Quality)> {
        seq![
            (REGEX_HALF_DIMINISHED, Quality::HalfDiminished),
            (REGEX_MINOR_MAJOR, Quality::MinorMajor),
            (REGEX_AUGMENTED_MAJOR, Quality::AugmentedMajor),
            (REGEX_MAJOR, Quality::Major),
            (REGEX_MINOR, Quality::Minor),
            (REGEX_DIMINISHED, Quality::Diminished),
            (REGEX_AUGMENTED, Quality::Augmented),
            (REGEX_DOMINANT, Quality::Dominant),
            (REGEX_SUSPENDED2, Quality::Suspended2),
            (REGEX_SUSPENDED4, Quality::Suspended4),
        ]
    }

    /// What `text` says of the quality: nothing, which stands for major; the
    /// first alias that matches; or an error.
    pub open spec fn named_in(text: Seq<char>) -> Result<(Quality, Option<MatchSpan>), ChordError> {
        if text.len() == 0 {
            Ok((Quality::Major, None))
        } else {
            match scan(Quality::aliases(), text, 0) {
                Scan::Hit(quality, span) => Ok((quality, Some(span))),
                _ => Err(ChordError::QualityFromRegex),
            }
        }
    }

    /// The name of the quality as it is listed.
    pub open spec fn label(self) -> Seq<char> {
        match self {
            Quality::Major => "Major"@,
            Quality::Minor => "Minor"@,
            Quality::Suspended2 => "Suspended2"@,
            Quality::Suspended4 => "Suspended4"@,
            Quality::Augmented => "Augmented"@,
            Quality::Diminished => "Diminished"@,
            Quality::HalfDiminished => "Half Diminished"@,
            Quality::MinorMajor => "Minor Major"@,
            Quality::AugmentedMajor => "Augmented Major"@,
            Quality::Dominant => "Dominant"@,
        }
    }

    /// The name of the quality as it is listed.
    pub fn name(self) -> (name: &'static str)
        ensures
            name@ == self.label(),
    {
        match self {
            Quality::Major => "Major",
            Quality::Minor => "Minor",
            Quality::Suspended2 => "Suspended2",
            Quality::Suspended4 => "Suspended4",
            Quality::Augmented => "Augmented",
            Quality::Diminished => "Diminished",
            Quality::HalfDiminished => "Half Diminished",
            Quality::MinorMajor => "Minor Major",
            Quality::AugmentedMajor => "Augmented Major",
            Quality::Dominant => "Dominant",
        }
    }

    /// The alias table for the recognizer.
    pub fn alias_table() -> (table: Vec<(&'static str, Quality)>)
        ensures
            table@ == Quality::aliases(),
    {
        let mut table: Vec<(&'static str, Quality)> = Vec::new();
        table.push((REGEX_HALF_DIMINISHED, Quality::HalfDiminished));
        table.push((REGEX_MINOR_MAJOR, Quality::MinorMajor));
        table.push((REGEX_AUGMENTED_MAJOR, Quality::AugmentedMajor));
        table.push((REGEX_MAJOR, Quality::Major));
        table.push((REGEX_MINOR, Quality::Minor));
        table.push((REGEX_DIMINISHED, Quality::Diminished));
        table.push((REGEX_AUGMENTED, Quality::Augmented));
        table.push((REGEX_DOMINANT, Quality::Dominant));
        table.push((REGEX_SUSPENDED2, Quality::Suspended2));
        table.push((REGEX_SUSPENDED4, Quality::Suspended4));
        assert(table@ =~= Quality::aliases());
        table
    }

    /// Reads the quality that `text` names. Empty text stands for a major
    /// chord and has no match; text that names no quality is an error.
    pub fn from_regex(text: &str) -> (found: Result<(Quality, Option<MatchSpan>), ChordError>)
        ensures
            found == Quality::named_in(text@),
            found matches Ok((_, Some(span))) ==> span_fits(span, text@),
    {
        if text.is_empty() {
            return Ok((Quality::Major, None));
        }
        let table = Quality::alias_table();
        match recognize(&table, text) {
            Scan::Hit(quality, span) => Ok((quality, Some(span))),
            _ => Err(ChordError::QualityFromRegex),
        }
    }
}

} // verus!
