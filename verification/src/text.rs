//! Cutting and trimming of the text that the recognizers work on.

use vstd::prelude::*;
use vstd::string::StringSliceAdditionalSpecFns;
use vstd::utf8::*;

verus! {

/// Whether `at` is a byte offset into `text` that falls between characters.
pub open spec fn is_cut(text: Seq<char>, at: int) -> bool {
    0 <= at <= encode_utf8(text).len() && is_char_boundary(encode_utf8(text), at)
}

/// The characters of `text` between the byte offsets `from` and `to`.
pub open spec fn byte_slice(text: Seq<char>, from: int, to: int) -> Seq<char> {
    decode_utf8(encode_utf8(text).subrange(from, to))
}

/// The offset of the first `byte` in `bytes` at or after `from`.
pub open spec fn find_byte(bytes: Seq<u8>, byte: u8, from: int) -> Option<int>
    decreases bytes.len() - from,
{
    if from < 0 || from >= bytes.len() {
        None
    } else if bytes[from] == byte {
        Some(from)
    } else {
        find_byte(bytes, byte, from + 1)
    }
}

/// `find_byte` returns the least offset that holds the byte, and `None`
/// only where no offset does.
pub proof fn find_byte_is_first(bytes: Seq<u8>, byte: u8, from: int)
    requires
        0 <= from,
    ensures
        match find_byte(bytes, byte, from) {
            Some(at) => from <= at < bytes.len() && bytes[at] == byte && forall|j: int|
                from <= j < at ==> bytes[j] != byte,
            None => forall|j: int| from <= j < bytes.len() ==> bytes[j] != byte,
        },
    decreases bytes.len() - from,
{
    if from < bytes.len() && bytes[from] != byte {
        find_byte_is_first(bytes, byte, from + 1);
    }
}

/// The start and the end of a text are cuts.
pub proof fn ends_are_cuts(text: Seq<char>)
    ensures
        is_cut(text, 0),
        is_cut(text, encode_utf8(text).len() as int),
{
    encode_utf8_valid_utf8(text);
    is_char_boundary_start_end_of_seq(encode_utf8(text));
}

/// Both sides of an ASCII byte of well-formed text are cuts.
pub proof fn ascii_byte_is_between_cuts(text: Seq<char>, at: int)
    requires
        0 <= at < encode_utf8(text).len(),
        encode_utf8(text)[at] < 0x80,
    ensures
        is_cut(text, at),
        is_cut(text, at + 1),
{
    broadcast use group_utf8_lib;

    let bytes = encode_utf8(text);
    assert(valid_utf8(bytes));
    assert(!is_continuation_byte(bytes[at]));
    assert(is_char_boundary(bytes, at));
    let tail = bytes.subrange(at, bytes.len() as int);
    assert(valid_utf8(tail));
    assert(tail[0] == bytes[at]);
    assert(is_leading_byte_width_1(tail[0]));
    assert(length_of_first_scalar(tail) == 1);
    assert(is_char_boundary(tail, 1)) by {
        reveal_with_fuel(is_char_boundary, 2);
        assert(valid_utf8(pop_first_scalar(tail)));
    }
    if at + 1 < bytes.len() {
        assert(tail[1] == bytes[at + 1]);
        assert(!is_continuation_byte(tail[1]));
        assert(is_char_boundary(bytes, at + 1));
    } else {
        assert(is_char_boundary(bytes, bytes.len() as int));
    }
}

/// The offset of the first `byte` in `text`, if it holds one.
pub fn first_byte(text: &str, byte: u8) -> (found: Option<usize>)
    ensures
        found matches Some(at) ==> find_byte(encode_utf8(text@), byte, 0) == Some(at as int) && at
            < encode_utf8(text@).len() <= usize::MAX,
        found is None ==> find_byte(encode_utf8(text@), byte, 0) is None,
{
    let bytes = text.as_bytes();
    let mut i: usize = 0;
    while i < bytes.len()
        invariant
            i <= bytes.len(),
            bytes@ == encode_utf8(text@),
            find_byte(bytes@, byte, 0) == find_byte(bytes@, byte, i as int),
        decreases bytes.len() - i,
    {
        if bytes[i] == byte {
            return Some(i);
        }
        i = i + 1;
    }
    None
}

/// The part of `text` between two cuts.
pub fn slice(text: &str, from: usize, to: usize) -> (part: &str)
    requires
        from <= to,
        is_cut(text@, from as int),
        is_cut(text@, to as int),
    ensures
        part@ == byte_slice(text@, from as int, to as int),
{
    broadcast use group_utf8_lib;

    let ghost bytes = encode_utf8(text@);
    let (head, _) = text.split_at(to);
    proof {
        let prefix = bytes.subrange(0, to as int);
        assert(head.spec_bytes() == prefix);
        assert(valid_utf8(prefix));
        if from < to {
            assert(prefix[from as int] == bytes[from as int]);
            assert(!is_continuation_byte(bytes[from as int]));
            assert(is_char_boundary(prefix, from as int));
        } else {
            assert(is_char_boundary(prefix, prefix.len() as int));
        }
    }
    let (_, part) = head.split_at(from);
    proof {
        assert(part.spec_bytes() =~= bytes.subrange(from as int, to as int));
        assert(decode_utf8(encode_utf8(part@)) == part@);
    }
    part
}

/// The part of `text` from a cut to the end.
pub fn slice_from(text: &str, from: usize) -> (part: &str)
    requires
        is_cut(text@, from as int),
    ensures
        part@ == byte_slice(text@, from as int, encode_utf8(text@).len() as int),
{
    let end = text.as_bytes().len();
    proof {
        ends_are_cuts(text@);
    }
    slice(text, from, end)
}

/// Whether `c` has the Unicode property White_Space, which is what
/// `char::is_whitespace` reports and what `str::trim` removes: the tab,
/// the line feed, the vertical tab, the form feed and the carriage return;
/// the space; the next line; and the spaces, the line separator and the
/// paragraph separator of the wider scripts.
pub open spec fn is_white_space(c: char) -> bool {
    ||| '\u{9}' <= c <= '\u{d}'
    ||| c == ' '
    ||| c == '\u{85}'
    ||| c == '\u{a0}'
    ||| c == '\u{1680}'
    ||| '\u{2000}' <= c <= '\u{200a}'
    ||| c == '\u{2028}'
    ||| c == '\u{2029}'
    ||| c == '\u{202f}'
    ||| c == '\u{205f}'
    ||| c == '\u{3000}'
}

/// `text` without its leading white space.
pub open spec fn trim_start(text: Seq<char>) -> Seq<char>
    decreases text.len(),
{
    if text.len() > 0 && is_white_space(text.first()) {
        trim_start(text.drop_first())
    } else {
        text
    }
}

/// `text` without its trailing white space.
pub open spec fn trim_end(text: Seq<char>) -> Seq<char>
    decreases text.len(),
{
    if text.len() > 0 && is_white_space(text.last()) {
        trim_end(text.drop_last())
    } else {
        text
    }
}

/// `text` without the white space at either end.
pub open spec fn trimmed(text: Seq<char>) -> Seq<char> {
    trim_end(trim_start(text))
}

/// Trimming leaves a text alone that neither starts nor ends with white
/// space, and leaves nothing of a text that is white space throughout.
pub proof fn trimmed_of_plain_and_blank(text: Seq<char>)
    ensures
        text.len() == 0 ==> trimmed(text) == text,
        text.len() > 0 && !is_white_space(text.first()) && !is_white_space(text.last())
            ==> trimmed(text) == text,
        (forall|i: int| 0 <= i < text.len() ==> is_white_space(#[trigger] text[i])) ==> trimmed(
            text,
        ).len() == 0,
    decreases text.len(),
{
    if text.len() > 0 && (forall|i: int| 0 <= i < text.len() ==> is_white_space(#[trigger] text[i])) {
        let rest = text.drop_first();
        assert forall|i: int| 0 <= i < rest.len() implies is_white_space(#[trigger] rest[i]) by {
            assert(rest[i] == text[i + 1]);
        }
        trimmed_of_plain_and_blank(rest);
        assert(is_white_space(text.first()));
    }
}

/// `str::trim` removes the leading and the trailing white space.
pub assume_specification[ str::trim ](text: &str) -> (part: &str)
    ensures
        part@ == trimmed(text@),
;

} // verus!
