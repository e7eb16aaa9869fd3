use vstd::prelude::*;
use vstd::utf8::encode_utf8;
use crate::chord::errors::ChordError;
use crate::note::pitch_class::leading_pitch;
use crate::note::PitchClass;

verus! {

/// The byte `+`.
pub const PLUS: u8 = 0x2b;

/// The byte `0`.
pub const ZERO: u8 = 0x30;

/// The byte `9`.
pub const NINE: u8 = 0x39;

/// The number that a run of decimal digits writes; none for an empty run
/// and for one that holds anything but digits.
pub open spec fn decimal(digits: Seq<u8>) -> Option<int>
    decreases digits.len(),
{
    if digits.len() == 0 || !(ZERO <= digits.last() <= NINE) {
        None
    } else if digits.len() == 1 {
        Some(digits.last() - ZERO)
    } else {
        match decimal(digits.drop_last()) {
            Some(tens) => Some(10 * tens + (digits.last() - ZERO)),
            None => None,
        }
    }
}

/// The number up to 255 that the bytes write in decimal digits, with or
/// without a plus sign before them.
pub open spec fn small_number(bytes: Seq<u8>) -> Option<u8> {
    let digits = if bytes.len() > 0 && bytes[0] == PLUS {
        bytes.drop_first()
    } else {
        bytes
    };
    match decimal(digits) {
        Some(value) => if value <= u8::MAX {
            Some(value as u8)
        } else {
            None
        },
        None => None,
    }
}

/// Where a run of digits writes a number, each of its prefixes writes one
/// too, and none that is larger.
pub proof fn decimal_of_prefix(digits: Seq<u8>, n: int)
    requires
        1 <= n <= digits.len(),
    ensures
        decimal(digits) matches Some(value) ==> decimal(digits.take(n)) matches Some(part) && 0
            <= part <= value,
    decreases digits.len(),
{
    if n == digits.len() {
        assert(digits.take(n) =~= digits);
        if digits.len() > 1 {
            decimal_of_prefix(digits.drop_last(), n - 1);
        }
    } else {
        assert(digits.drop_last().take(n) =~= digits.take(n));
        decimal_of_prefix(digits.drop_last(), n);
    }
}

/// Which voicing of a chord is asked for.
#[derive(Debug, Clone, Copy, PartialEq, Eq, Structural)]
pub enum Inversion {
    /// The number of the inversion.
    Number(u8),
    /// The pitch class of the lowest note.
    BassNote(PitchClass),
}

impl Inversion {
    /// The inversion that `text` names: a number up to 255, or else the
    /// pitch class that it starts with.
    pub open spec fn named_in(text: Seq<char>) -> Result<Inversion, ChordError> {
        match small_number(encode_utf8(text)) {
            Some(number) => Ok(Inversion::Number(number)),
            None => match leading_pitch(text) {
                Ok((pitch, _)) => Ok(Inversion::BassNote(pitch)),
                Err(_) => Err(ChordError::InversionFormat),
            },
        }
    }

    /// Reads a number up to 255 in decimal digits, which a plus sign may
    /// precede.
    pub fn number_from_str(text: &str) -> (number: Option<u8>)
        ensures
            number == small_number(encode_utf8(text@)),
    {
        let bytes = text.as_bytes();
        let start: usize = if bytes.len() > 0 && bytes[0] == PLUS {
            1
        } else {
            0
        };
        let ghost digits = bytes@.subrange(start as int, bytes@.len() as int);
        proof {
            if start == 1 {
                assert(digits =~= bytes@.drop_first());
            } else {
                assert(digits =~= bytes@);
            }
        }
        if start == bytes.len() {
            return None;
        }
        let mut value: u16 = 0;
        let mut i: usize = start;
        while i < bytes.len()
            invariant
                start <= i <= bytes.len(),
                start < bytes.len(),
                bytes@ == encode_utf8(text@),
                digits == bytes@.subrange(start as int, bytes@.len() as int),
                digits == if bytes@.len() > 0 && bytes@[0] == PLUS {
                    bytes@.drop_first()
                } else {
                    bytes@
                },
                value <= u8::MAX,
                i == start ==> value == 0,
                i > start ==> decimal(digits.take(i - start)) == Some(value as int),
            decreases bytes.len() - i,
        {
            let byte = bytes[i];
            proof {
                assert(digits.take(i + 1 - start).drop_last() =~= digits.take(i - start));
                assert(digits.take(i + 1 - start).last() == byte);
                decimal_of_prefix(digits, i + 1 - start);
            }
            if byte < ZERO || byte > NINE {
                return None;
            }
            let digit: u16 = (byte - ZERO) as u16;
            value = 10 * value + digit;
            if value > 255 {
                return None;
            }
            i = i + 1;
        }
        proof {
            assert(digits.take(bytes.len() - start) =~= digits);
        }
        Some(value as u8)
    }

    /// Reads what stands after the slash of a chord: the number of the
    /// inversion, or else the bass note.
    pub fn from_str(text: &str) -> (found: Result<Inversion, ChordError>)
        ensures
            found == Inversion::named_in(text@),
    {
        match Inversion::number_from_str(text) {
            Some(number) => Ok(Inversion::Number(number)),
            None => match PitchClass::from_regex(text) {
                Ok((pitch, _)) => Ok(Inversion::BassNote(pitch)),
                Err(_) => Err(ChordError::InversionFormat),
            },
        }
    }
}

} // verus!
