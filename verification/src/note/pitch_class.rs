use vstd::prelude::*;
use vstd::string::StrSliceExecFns;
use crate::interval::Interval;
use crate::note::errors::NoteError;
use crate::pattern::{leftmost_match, pattern_compiles, search, span_fits, MatchSpan};
use crate::text::{byte_slice, slice};

verus! {

/// A pitch letter in either case at the start of the text, with one
/// accidental after it where there is one.
pub const PITCH_PATTERN: &'static str = "^[ABCDEFGabcdefg][b\u{266d}\u{266f}#s]?";

/// The pitch class that a letter names.
pub open spec fn natural(letter: char) -> Option<PitchClass> {
    if letter == 'C' || letter == 'c' {
        Some(PitchClass::C)
    } else if letter == 'D' || letter == 'd' {
        Some(PitchClass::D)
    } else if letter == 'E' || letter == 'e' {
        Some(PitchClass::E)
    } else if letter == 'F' || letter == 'f' {
        Some(PitchClass::F)
    } else if letter == 'G' || letter == 'g' {
        Some(PitchClass::G)
    } else if letter == 'A' || letter == 'a' {
        Some(PitchClass::A)
    } else if letter == 'B' || letter == 'b' {
        Some(PitchClass::B)
    } else {
        None
    }
}

/// The semitones that an accidental adds, octaves ignored: a sharp one, a
/// flat eleven.
pub open spec fn accidental_shift(sign: char) -> Option<int> {
    if sign == '#' || sign == 's' || sign == '\u{266f}' {
        Some(1)
    } else if sign == 'b' || sign == '\u{266d}' {
        Some(11)
    } else {
        None
    }
}

/// The pitch class that a token of a letter and at most one accidental
/// names.
pub open spec fn pitch_of_token(token: Seq<char>) -> Option<PitchClass> {
    if token.len() == 1 {
        natural(token[0])
    } else if token.len() == 2 {
        match (natural(token[0]), accidental_shift(token[1])) {
            (Some(pitch), Some(shift)) => Some(PitchClass::at(pitch.ordinal() + shift)),
            _ => None,
        }
    } else {
        None
    }
}

/// The pitch class at the start of `text` and the span of its token.
pub open spec fn leading_pitch(text: Seq<char>) -> Result<(PitchClass, MatchSpan), NoteError> {
    if !pattern_compiles(PITCH_PATTERN@) {
        Err(NoteError::InvalidPitch)
    } else {
        match leftmost_match(PITCH_PATTERN@, text) {
            Some(span) => match pitch_of_token(
                byte_slice(text, span.start as int, span.end as int),
            ) {
                Some(pitch) => Ok((pitch, span)),
                None => Err(NoteError::InvalidPitch),
            },
            None => Err(NoteError::InvalidPitch),
        }
    }
}

/// One of the twelve equal-tempered pitch classes, in ascending semitone
/// order from C.
#[derive(Debug, Clone, Copy, PartialEq, Eq, Structural)]
pub enum PitchClass {
    /// C.
    C,
    /// C sharp or D flat.
    Cs,
    /// D.
    D,
    /// D sharp or E flat.
    Ds,
    /// E.
    E,
    /// F.
    F,
    /// F sharp or G flat.
    Fs,
    /// G.
    G,
    /// G sharp or A flat.
    Gs,
    /// A.
    A,
    /// A sharp or B flat.
    As,
    /// B.
    B,
}

impl PitchClass {
    /// Semitones above C, from 0 to 11.
    pub open spec fn ordinal(self) -> int {
        match self {
            PitchClass::C => 0,
            PitchClass::Cs => 1,
            PitchClass::D => 2,
            PitchClass::Ds => 3,
            PitchClass::E => 4,
            PitchClass::F => 5,
            PitchClass::Fs => 6,
            PitchClass::G => 7,
            PitchClass::Gs => 8,
            PitchClass::A => 9,
            PitchClass::As => 10,
            PitchClass::B => 11,
        }
    }

    /// The pitch class that lies `semitones` above C, octaves ignored.
    pub open spec fn at(semitones: int) -> PitchClass {
        let r = semitones % 12;
        if r == 0 {
            PitchClass::C
        } else if r == 1 {
            PitchClass::Cs
        } else if r == 2 {
            PitchClass::D
        } else if r == 3 {
            PitchClass::Ds
        } else if r == 4 {
            PitchClass::E
        } else if r == 5 {
            PitchClass::F
        } else if r == 6 {
            PitchClass::Fs
        } else if r == 7 {
            PitchClass::G
        } else if r == 8 {
            PitchClass::Gs
        } else if r == 9 {
            PitchClass::A
        } else if r == 10 {
            PitchClass::As
        } else {
            PitchClass::B
        }
    }

    /// Every pitch class has its own ordinal below 12, and `at` undoes
    /// `ordinal`.
    pub proof fn ordinal_is_injective(a: PitchClass, b: PitchClass)
        ensures
            0 <= a.ordinal() < 12,
            PitchClass::at(a.ordinal()) == a,
            a.ordinal() == b.ordinal() ==> a == b,
    {
    }

    /// `at` is the inverse of `ordinal` modulo 12.
    pub proof fn ordinal_of_at(semitones: int)
        ensures
            PitchClass::at(semitones).ordinal() == semitones % 12,
    {
    }

    /// Enharmonic spellings name one pitch class: a pitch raised by a
    /// sharp is the pitch a whole tone above it lowered by a flat.
    pub proof fn sharp_meets_flat(lower: PitchClass, upper: PitchClass)
        requires
            upper.ordinal() == (lower.ordinal() + 2) % 12,
        ensures
            PitchClass::at(lower.ordinal() + 1) == PitchClass::at(upper.ordinal() + 11),
    {
    }

    /// Semitones above C as a machine integer.
    pub fn to_u8(self) -> (value: u8)
        ensures
            value == self.ordinal(),
    {
        match self {
            PitchClass::C => 0,
            PitchClass::Cs => 1,
            PitchClass::D => 2,
            PitchClass::Ds => 3,
            PitchClass::E => 4,
            PitchClass::F => 5,
            PitchClass::Fs => 6,
            PitchClass::G => 7,
            PitchClass::Gs => 8,
            PitchClass::A => 9,
            PitchClass::As => 10,
            PitchClass::B => 11,
        }
    }

    /// The pitch class `val` semitones above C; values of 12 and more wrap
    /// round the octave.
    pub fn from_u8(val: u8) -> (pitch: PitchClass)
        ensures
            pitch == PitchClass::at(val as int),
            pitch.ordinal() == val % 12,
    {
        let r: u8 = val % 12;
        if r == 0 {
            PitchClass::C
        } else if r == 1 {
            PitchClass::Cs
        } else if r == 2 {
            PitchClass::D
        } else if r == 3 {
            PitchClass::Ds
        } else if r == 4 {
            PitchClass::E
        } else if r == 5 {
            PitchClass::F
        } else if r == 6 {
            PitchClass::Fs
        } else if r == 7 {
            PitchClass::G
        } else if r == 8 {
            PitchClass::Gs
        } else if r == 9 {
            PitchClass::A
        } else if r == 10 {
            PitchClass::As
        } else {
            PitchClass::B
        }
    }

    /// The name of the pitch class, spelled with a sharp where it has no
    /// letter of its own.
    pub open spec fn label(self) -> Seq<char> {
        match self {
            PitchClass::C => "C"@,
            PitchClass::Cs => "C#"@,
            PitchClass::D => "D"@,
            PitchClass::Ds => "D#"@,
            PitchClass::E => "E"@,
            PitchClass::F => "F"@,
            PitchClass::Fs => "F#"@,
            PitchClass::G => "G"@,
            PitchClass::Gs => "G#"@,
            PitchClass::A => "A"@,
            PitchClass::As => "A#"@,
            PitchClass::B => "B"@,
        }
    }

    /// The name of the pitch class, spelled with a sharp where it has no
    /// letter of its own.
    pub fn name(self) -> (name: &'static str)
        ensures
            name@ == self.label(),
    {
        match self {
            PitchClass::C => "C",
            PitchClass::Cs => "C#",
            PitchClass::D => "D",
            PitchClass::Ds => "D#",
            PitchClass::E => "E",
            PitchClass::F => "F",
            PitchClass::Fs => "F#",
            PitchClass::G => "G",
            PitchClass::Gs => "G#",
            PitchClass::A => "A",
            PitchClass::As => "A#",
            PitchClass::B => "B",
        }
    }

    /// The pitch class an interval above `pitch`.
    pub fn from_interval(pitch: PitchClass, interval: Interval) -> (reached: PitchClass)
        ensures
            reached == PitchClass::at(pitch.ordinal() + interval.semitones()),
    {
        PitchClass::from_u8(pitch.to_u8() + interval.semitone_count())
    }

    /// Reads a token made of a pitch letter and at most one accidental:
    /// `#`, `s` or the sharp sign raise the letter by a semitone, `b` or the
    /// flat sign lower it by one. Enharmonic spellings give the same pitch
    /// class.
    pub fn from_str(token: &str) -> (pitch: Option<PitchClass>)
        ensures
            pitch == pitch_of_token(token@),
    {
        let length = token.unicode_len();
        if length == 0 || length > 2 {
            return None;
        }
        let letter = token.get_char(0);
        let pitch = if letter == 'C' || letter == 'c' {
            PitchClass::C
        } else if letter == 'D' || letter == 'd' {
            PitchClass::D
        } else if letter == 'E' || letter == 'e' {
            PitchClass::E
        } else if letter == 'F' || letter == 'f' {
            PitchClass::F
        } else if letter == 'G' || letter == 'g' {
            PitchClass::G
        } else if letter == 'A' || letter == 'a' {
            PitchClass::A
        } else if letter == 'B' || letter == 'b' {
            PitchClass::B
        } else {
            return None;
        };
        if length == 1 {
            return Some(pitch);
        }
        let sign = token.get_char(1);
        let shift: u8 = if sign == '#' || sign == 's' || sign == '\u{266f}' {
            1
        } else if sign == 'b' || sign == '\u{266d}' {
            11
        } else {
            return None;
        };
        Some(PitchClass::from_u8(pitch.to_u8() + shift))
    }

    /// Finds the pitch class that `text` starts with, and where its token
    /// lies in `text`.
    pub fn from_regex(text: &str) -> (found: Result<(PitchClass, MatchSpan), NoteError>)
        ensures
            found == leading_pitch(text@),
            found matches Ok(hit) ==> span_fits(hit.1, text@),
    {
        match search(PITCH_PATTERN, text) {
            Ok(Some(span)) => {
                match PitchClass::from_str(slice(text, span.start, span.end)) {
                    Some(pitch) => Ok((pitch, span)),
                    None => Err(NoteError::InvalidPitch),
                }
            },
            _ => Err(NoteError::InvalidPitch),
        }
    }
}

} // verus!
