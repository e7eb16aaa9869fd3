//! Ordered alias tables and the regular-expression engine behind them.

use vstd::prelude::*;
use crate::text::is_cut;

verus! {

/// Where a match lies in the searched text, as byte offsets.
#[derive(Debug, Clone, Copy, PartialEq, Eq, Structural)]
pub struct MatchSpan {
    /// Offset of the first byte of the match.
    pub start: usize,
    /// Offset just past the last byte of the match.
    pub end: usize,
}

/// The error type of the `regex` crate, carried through unopened.
#[verifier::external_type_specification]
#[verifier::external_body]
pub struct ExRegexError(regex::Error);

/// Whether `regex::Regex::new` accepts `pattern`.
pub uninterp spec fn pattern_compiles(pattern: Seq<char>) -> bool;

/// What `regex::Regex::find` reports for `pattern` in `text`: the byte
/// offsets of the leftmost match, if there is one.
pub uninterp spec fn leftmost_match(pattern: Seq<char>, text: Seq<char>) -> Option<MatchSpan>;

/// Whether `span` lies inside `text` and cuts it between characters.
pub open spec fn span_fits(span: MatchSpan, text: Seq<char>) -> bool {
    &&& span.start <= span.end
    &&& is_cut(text, span.start as int)
    &&& is_cut(text, span.end as int)
}

/// Compiles `pattern` with `regex::Regex::new` and searches `text` with
/// `regex::Regex::find`.
///
/// Trusted: an error is returned exactly for the patterns that the engine
/// rejects; otherwise the result is the engine's leftmost match, whose
/// offsets `Match::start` and `Match::end` document as ordered, inside the
/// text and on character boundaries.
#[verifier::external_body]
pub(crate) fn search(pattern: &str, text: &str) -> (found: Result<Option<MatchSpan>, regex::Error>)
    ensures
        found is Ok <==> pattern_compiles(pattern@),
        found matches Ok(hit) ==> hit == leftmost_match(pattern@, text@),
        found matches Ok(Some(span)) ==> span_fits(span, text@),
{
    match regex::Regex::new(pattern) {
        Ok(compiled) => Ok(
            match compiled.find(text) {
                Some(m) => Some(MatchSpan { start: m.start(), end: m.end() }),
                None => None,
            },
        ),
        Err(e) => Err(e),
    }
}

/// How a walk through an alias table ends.
#[derive(Debug, PartialEq, Eq)]
pub enum Scan<T> {
    /// The first entry whose pattern matches, with the match.
    Hit(T, MatchSpan),
    /// No entry matches.
    Miss,
    /// An entry's pattern was rejected before any entry matched.
    Invalid,
}

/// Walks `table` from entry `from` on, in order: the first pattern that
/// matches `text` decides, and a rejected pattern ends the walk.
pub open spec fn scan<T>(table: Seq<(&'static str, T)>, text: Seq<char>, from: int) -> Scan<T>
    decreases table.len() - from,
{
    if from < 0 || from >= table.len() {
        Scan::Miss
    } else if !pattern_compiles(table[from].0@) {
        Scan::Invalid
    } else {
        match leftmost_match(table[from].0@, text) {
            Some(span) => Scan::Hit(table[from].1, span),
            None => scan(table, text, from + 1),
        }
    }
}

/// Tries the patterns of `table` on `text` in table order, and stops at the
/// first that matches or cannot be used.
pub fn recognize<T: Copy>(table: &Vec<(&'static str, T)>, text: &str) -> (found: Scan<T>)
    ensures
        found == scan(table@, text@, 0),
        found matches Scan::Hit(_, span) ==> span_fits(span, text@),
{
    let mut i: usize = 0;
    while i < table.len()
        invariant
            i <= table.len(),
            scan(table@, text@, 0) == scan(table@, text@, i as int),
        decreases table.len() - i,
    {
        let entry = table[i];
        match search(entry.0, text) {
            Err(_) => {
                return Scan::Invalid;
            },
            Ok(Some(span)) => {
                return Scan::Hit(entry.1, span);
            },
            Ok(None) => {},
        }
        i = i + 1;
    }
    Scan::Miss
}

} // verus!
