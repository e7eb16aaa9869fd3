use vstd::prelude::*;
use crate::chord::errors::ChordError;
use crate::pattern::{recognize, scan, span_fits, MatchSpan, Scan};

verus! {

/// The names of the triad.
pub const REGEX_TRIAD: &'static str = "\\b(triad|Triad)\\b";

/// The names of the seventh.
pub const REGEX_SEVENTH: &'static str = "\\b(seventh|Seventh|7th|7)\\b";

/// The names of the ninth.
pub const REGEX_NINTH: &'static str = "\\b(ninth|Ninth|9th|9)\\b";

/// The names of the eleventh.
pub const REGEX_ELEVENTH: &'static str = "\\b(eleventh|Eleventh|11th|11)\\b";

/// The names of the thirteenth.
pub const REGEX_THIRTEENTH: &'static str = "\\b(thirteenth|Thirteenth|13th|13)\\b";

/// How far a chord is stacked.
#[derive(Debug, Clone, Copy, PartialEq, Eq, Structural)]
pub enum Number {
    /// Three notes.
    Triad,
    /// Four notes, up to the seventh.
    Seventh,
    /// Five notes, up to the ninth.
    Ninth,
    /// Six notes, up to the eleventh.
    Eleventh,
    /// Seven notes, up to the thirteenth.
    Thirteenth,
}

impl Number {
    /// The aliases of each number, in the order in which they are tried.
    pub open spec fn aliases() -> Seq<(&'static str, Number)> {
        seq![
            (REGEX_TRIAD, Number::Triad),
            (REGEX_SEVENTH, Number::Seventh),
            (REGEX_NINTH, Number::Ninth),
            (REGEX_ELEVENTH, Number::Eleventh),
            (REGEX_THIRTEENTH, Number::Thirteenth),
        ]
    }

    /// What `text` says of the number: the first alias that matches; a
    /// triad where none does; or an error.
    pub open spec fn named_in(text: Seq<char>) -> Result<(Number, Option<MatchSpan>), ChordError> {
        match scan(Number::aliases(), text, 0) {
            Scan::Hit(number, span) => Ok((number, Some(span))),
            Scan::Miss => Ok((Number::Triad, None)),
            Scan::Invalid => Err(ChordError::NumberFromRegex),
        }
    }

    /// The number of notes in a chord of this number.
    pub open spec fn tones(self) -> int {
        match self {
            Number::Triad => 3,
            Number::Seventh => 4,
            Number::Ninth => 5,
            Number::Eleventh => 6,
            Number::Thirteenth => 7,
        }
    }

    /// The name of the number as it is listed.
    pub open spec fn label(self) -> Seq<char> {
        match self {
            Number::Triad => "Triad"@,
            Number::Seventh => "Seventh"@,
            Number::Ninth => "Ninth"@,
            Number::Eleventh => "Eleventh"@,
            Number::Thirteenth => "Thirteenth"@,
        }
    }

    /// The name of the number as it is listed.
    pub fn name(self) -> (name: &'static str)
        ensures
            name@ == self.label(),
    {
        match self {
            Number::Triad => "Triad",
            Number::Seventh => "Seventh",
            Number::Ninth => "Ninth",
            Number::Eleventh => "Eleventh",
            Number::Thirteenth => "Thirteenth",
        }
    }

    /// The alias table for the recognizer.
    pub fn alias_table() -> (table: Vec<(&'static str, Number)>)
        ensures
            table@ == Number::aliases(),
    {
        let mut table: Vec<(&'static str, Number)> = Vec::new();
        table.push((REGEX_TRIAD, Number::Triad));
        table.push((REGEX_SEVENTH, Number::Seventh));
        table.push((REGEX_NINTH, Number::Ninth));
        table.push((REGEX_ELEVENTH, Number::Eleventh));
        table.push((REGEX_THIRTEENTH, Number::Thirteenth));
        assert(table@ =~= Number::aliases());
        table
    }

    /// Reads the number that `text` names. Text that names none stands for
    /// a triad and has no match.
    pub fn from_regex(text: &str) -> (found: Result<(Number, Option<MatchSpan>), ChordError>)
        ensures
            found == Number::named_in(text@),
            found matches Ok((_, Some(span))) ==> span_fits(span, text@),
    {
        let table = Number::alias_table();
        match recognize(&table, text) {
            Scan::Hit(number, span) => Ok((number, Some(span))),
            Scan::Miss => Ok((Number::Triad, None)),
            Scan::Invalid => Err(ChordError::NumberFromRegex),
        }
    }
}

impl Default for Number {
    /// A chord whose number is not said is a triad.
    fn default() -> (number: Number)
        ensures
            number == Number::Triad,
    {
        Number::Triad
    }
}

} // verus!
