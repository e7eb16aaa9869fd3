use vstd::prelude::*;
use crate::interval::{steps_in_range, steps_of, total, total_written_out, Interval};
use crate::pattern::{recognize, scan, span_fits, MatchSpan, Scan};
use crate::scale::errors::ScaleError;

verus! {

/// The names of the major scale, the Ionian mode.
pub const REGEX_MAJOR: &'static str = "(M|maj|Maj|Major|major|Ionian|ionian)";

/// The names of the natural minor scale, the Aeolian mode.
pub const REGEX_MINOR: &'static str = "(m|min|Min|Minor|minor|Aeolian|aeolian)";

/// The names of the Dorian mode.
pub const REGEX_DORIAN: &'static str = "(dor|dorian)";

/// The names of the Phrygian mode.
pub const REGEX_PHRYGIAN: &'static str = "(phy|phr|phrygian)";

/// The names of the Lydian mode.
pub const REGEX_LYDIAN: &'static str = "(lyd|lydian)";

/// The names of the Mixolydian mode.
pub const REGEX_MIXOLYDIAN: &'static str = "(mix|mixolydian)";

/// The names of the Locrian mode.
pub const REGEX_LOCRIAN: &'static str = "(loc|locrian)";

/// The names of the melodic minor scale.
pub const REGEX_MELODIC_MINOR: &'static str =
    "(mel minor|melodicminor|melodic minor|Melodic Minor|MelodicMinor)";

/// The names of the harmonic minor scale.
pub const REGEX_HARMONIC_MINOR: &'static str =
    "(har minor|harmonicminor|harmonic minor|Harmonic Minor|HarmonicMinor)";

/// The mode of a scale.
#[derive(Debug, Clone, Copy, PartialEq, Eq, Structural)]
pub enum Mode {
    /// The major scale.
    Ionian,
    /// The minor scale with a raised sixth.
    Dorian,
    /// The minor scale with a lowered second.
    Phrygian,
    /// The major scale with a raised fourth.
    Lydian,
    /// The major scale with a lowered seventh.
    Mixolydian,
    /// The natural minor scale.
    Aeolian,
    /// The minor scale with a lowered second and fifth.
    Locrian,
    /// The minor scale with a raised seventh.
    HarmonicMinor,
    /// The minor scale with a raised sixth and seventh.
    MelodicMinor,
}

/// Every mode has seven valid steps, which add up to an octave.
pub proof fn mode_steps_bounds(mode: Mode)
    ensures
        steps_in_range(mode.steps()),
        mode.steps().len() == 7,
        total(mode.steps()) == 12,
{
    total_written_out(mode.steps());
}

impl Mode {
    /// The aliases of each mode, in the order in which they are tried.
    ///
    /// The major names come first, then the harmonic and the melodic minor,
    /// and only then the plain minor, whose aliases occur inside theirs; the
    /// other modes follow.
    pub open spec fn aliases() -> Seq<(&'static str, Mode)> {
        seq![
            (REGEX_MAJOR, Mode::Ionian),
            (REGEX_HARMONIC_MINOR, Mode::HarmonicMinor),
            (REGEX_MELODIC_MINOR, Mode::MelodicMinor),
            (REGEX_MINOR, Mode::Aeolian),
            (REGEX_DORIAN, Mode::Dorian),
            (REGEX_LOCRIAN, Mode::Locrian),
            (REGEX_MIXOLYDIAN, Mode::Mixolydian),
            (REGEX_PHRYGIAN, Mode::Phrygian),
            (REGEX_LYDIAN, Mode::Lydian),
        ]
    }

    /// The mode that `text` names, with the span of its alias: that of the
    /// first entry of the table whose aliases occur in `text`.
    pub open spec fn named_in(text: Seq<char>) -> Result<(Mode, MatchSpan), ScaleError> {
        match scan(Mode::aliases(), text, 0) {
            Scan::Hit(mode, span) => Ok((mode, span)),
            _ => Err(ScaleError::ModeFromRegex),
        }
    }

    /// The seven steps of the mode, from the root up to its octave.
    pub open spec fn steps(self) -> Seq<int> {
        match self {
            Mode::Ionian => seq![2, 2, 1, 2, 2, 2, 1],
            Mode::Dorian => seq![2, 1, 2, 2, 2, 1, 2],
            Mode::Phrygian => seq![1, 2, 2, 2, 1, 2, 2],
            Mode::Lydian => seq![2, 2, 2, 1, 2, 2, 1],
            Mode::Mixolydian => seq![2, 2, 1, 2, 2, 1, 2],
            Mode::Aeolian => seq![2, 1, 2, 2, 1, 2, 2],
            Mode::Locrian => seq![1, 2, 2, 1, 2, 2, 2],
            Mode::HarmonicMinor => seq![2, 1, 2, 2, 1, 3, 1],
            Mode::MelodicMinor => seq![2, 1, 2, 2, 2, 2, 1],
        }
    }

    /// The seven intervals of the mode, from the root up to its octave.
    pub fn intervals(self) -> (intervals: Vec<Interval>)
        ensures
            steps_of(intervals@) == self.steps(),
    {
        let counts: Vec<u8> = match self {
            Mode::Ionian => vec![2, 2, 1, 2, 2, 2, 1],
            Mode::Dorian => vec![2, 1, 2, 2, 2, 1, 2],
            Mode::Phrygian => vec![1, 2, 2, 2, 1, 2, 2],
            Mode::Lydian => vec![2, 2, 2, 1, 2, 2, 1],
            Mode::Mixolydian => vec![2, 2, 1, 2, 2, 1, 2],
            Mode::Aeolian => vec![2, 1, 2, 2, 1, 2, 2],
            Mode::Locrian => vec![1, 2, 2, 1, 2, 2, 2],
            Mode::HarmonicMinor => vec![2, 1, 2, 2, 1, 3, 1],
            Mode::MelodicMinor => vec![2, 1, 2, 2, 2, 2, 1],
        };
        proof {
            mode_steps_bounds(self);
            assert(counts@.map_values(|c: u8| c as int) =~= self.steps());
        }
        match Interval::from_semitones(counts.as_slice()) {
            Ok(intervals) => intervals,
            Err(_) => Vec::new(),
        }
    }

    /// The name of the mode as it is listed.
    pub open spec fn label(self) -> Seq<char> {
        match self {
            Mode::Ionian => "Ionian"@,
            Mode::Dorian => "Dorian"@,
            Mode::Phrygian => "Phrygian"@,
            Mode::Lydian => "Lydian"@,
            Mode::Mixolydian => "Mixolydian"@,
            Mode::Aeolian => "Aeolian"@,
            Mode::Locrian => "Locrian"@,
            Mode::HarmonicMinor => "HarmonicMinor"@,
            Mode::MelodicMinor => "MelodicMinor"@,
        }
    }

    /// The name of the mode as it is listed.
    pub fn name(self) -> (name: &'static str)
        ensures
            name@ == self.label(),
    {
        match self {
            Mode::Ionian => "Ionian",
            Mode::Dorian => "Dorian",
            Mode::Phrygian => "Phrygian",
            Mode::Lydian => "Lydian",
            Mode::Mixolydian => "Mixolydian",
            Mode::Aeolian => "Aeolian",
            Mode::Locrian => "Locrian",
            Mode::HarmonicMinor => "HarmonicMinor",
            Mode::MelodicMinor => "MelodicMinor",
        }
    }

    /// The alias table for the recognizer.
    pub fn alias_table() -> (table: Vec<(&'static str, Mode)>)
        ensures
            table@ == Mode::aliases(),
    {
        let mut table: Vec<(&'static str, Mode)> = Vec::new();
        table.push((REGEX_MAJOR, Mode::Ionian));
        table.push((REGEX_HARMONIC_MINOR, Mode::HarmonicMinor));
        table.push((REGEX_MELODIC_MINOR, Mode::MelodicMinor));
        table.push((REGEX_MINOR, Mode::Aeolian));
        table.push((REGEX_DORIAN, Mode::Dorian));
        table.push((REGEX_LOCRIAN, Mode::Locrian));
        table.push((REGEX_MIXOLYDIAN, Mode::Mixolydian));
        table.push((REGEX_PHRYGIAN, Mode::Phrygian));
        table.push((REGEX_LYDIAN, Mode::Lydian));
        assert(table@ =~= Mode::aliases());
        table
    }

    /// Reads the mode that `string` names.
    pub fn from_regex(string: &str) -> (found: Result<(Mode, MatchSpan), ScaleError>)
        ensures
            found == Mode::named_in(string@),
            found matches Ok(hit) ==> span_fits(hit.1, string@),
    {
        let table = Mode::alias_table();
        match recognize(&table, string) {
            Scan::Hit(mode, span) => Ok((mode, span)),
            _ => Err(ScaleError::ModeFromRegex),
        }
    }
}

} // verus!
