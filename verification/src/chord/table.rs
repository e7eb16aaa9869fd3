use vstd::prelude::*;
use crate::chord::number::Number;
use crate::chord::quality::Quality;
use crate::interval::{steps_in_range, total, total_written_out};

verus! {

/// The steps between the notes of a chord, root first.
///
/// The table holds 22 chords. Any other pair of quality and number stands
/// for a major triad: an unusual combination is never refused.
pub open spec fn chord_steps(quality: Quality, number: Number) -> Seq<int> {
    match (quality, number) {
        (Quality::Major, Number::Triad) => seq![4, 3],
        (Quality::Minor, Number::Triad) => seq![3, 4],
        (Quality::Suspended2, Number::Triad) => seq![2, 5],
        (Quality::Suspended4, Number::Triad) => seq![5, 7],
        (Quality::Augmented, Number::Triad) => seq![4, 4],
        (Quality::Diminished, Number::Triad) => seq![3, 3],
        (Quality::Major, Number::Seventh) => seq![4, 3, 4],
        (Quality::Minor, Number::Seventh) => seq![3, 4, 3],
        (Quality::Augmented, Number::Seventh) => seq![4, 4, 2],
        (Quality::AugmentedMajor, Number::Seventh) => seq![4, 4, 3],
        (Quality::Diminished, Number::Seventh) => seq![3, 3, 3],
        (Quality::HalfDiminished, Number::Seventh) => seq![3, 3, 4],
        (Quality::MinorMajor, Number::Seventh) => seq![3, 4, 4],
        (Quality::Dominant, Number::Seventh) => seq![4, 3, 3],
        (Quality::Dominant, Number::Ninth) => seq![4, 3, 3, 4],
        (Quality::Major, Number::Ninth) => seq![4, 3, 4, 3],
        (Quality::Dominant, Number::Eleventh) => seq![4, 3, 3, 4, 4],
        (Quality::Major, Number::Eleventh) => seq![4, 3, 4, 3, 3],
        (Quality::Minor, Number::Eleventh) => seq![3, 4, 3, 4, 3],
        (Quality::Dominant, Number::Thirteenth) => seq![4, 3, 3, 4, 3, 4],
        (Quality::Major, Number::Thirteenth) => seq![4, 3, 4, 3, 3, 4],
        (Quality::Minor, Number::Thirteenth) => seq![3, 4, 3, 4, 3, 4],
        _ => seq![4, 3],
    }
}

/// The place of the pair among the 22 chords of the table, from 0 on; -1
/// for a pair that the table does not hold.
pub open spec fn place_in_table(quality: Quality, number: Number) -> int {
    match (quality, number) {
        (Quality::Major, Number::Triad) => 0,
        (Quality::Minor, Number::Triad) => 1,
        (Quality::Suspended2, Number::Triad) => 2,
        (Quality::Suspended4, Number::Triad) => 3,
        (Quality::Augmented, Number::Triad) => 4,
        (Quality::Diminished, Number::Triad) => 5,
        (Quality::Major, Number::Seventh) => 6,
        (Quality::Minor, Number::Seventh) => 7,
        (Quality::Augmented, Number::Seventh) => 8,
        (Quality::AugmentedMajor, Number::Seventh) => 9,
        (Quality::Diminished, Number::Seventh) => 10,
        (Quality::HalfDiminished, Number::Seventh) => 11,
        (Quality::MinorMajor, Number::Seventh) => 12,
        (Quality::Dominant, Number::Seventh) => 13,
        (Quality::Dominant, Number::Ninth) => 14,
        (Quality::Major, Number::Ninth) => 15,
        (Quality::Dominant, Number::Eleventh) => 16,
        (Quality::Major, Number::Eleventh) => 17,
        (Quality::Minor, Number::Eleventh) => 18,
        (Quality::Dominant, Number::Thirteenth) => 19,
        (Quality::Major, Number::Thirteenth) => 20,
        (Quality::Minor, Number::Thirteenth) => 21,
        _ => -1,
    }
}

/// Whether the table of chords holds the pair.
pub open spec fn in_chord_table(quality: Quality, number: Number) -> bool {
    place_in_table(quality, number) >= 0
}

/// Every chord of the table has as many notes as its number says; every
/// list of steps that the lookup gives is short, made of valid steps, and
/// spans less than two octaves.
pub proof fn chord_steps_bounds(quality: Quality, number: Number)
    ensures
        steps_in_range(chord_steps(quality, number)),
        2 <= chord_steps(quality, number).len() <= 6,
        total(chord_steps(quality, number)) <= 21,
        in_chord_table(quality, number) ==> chord_steps(quality, number).len() + 1
            == number.tones(),
        !in_chord_table(quality, number) ==> chord_steps(quality, number) == seq![4int, 3],
{
    total_written_out(chord_steps(quality, number));
}

/// The chords of the table, in the order in which they are listed.
pub open spec fn chord_table() -> Seq<(Quality, Number)> {
    seq![
        (Quality::Major, Number::Triad),
        (Quality::Minor, Number::Triad),
        (Quality::Suspended2, Number::Triad),
        (Quality::Suspended4, Number::Triad),
        (Quality::Augmented, Number::Triad),
        (Quality::Diminished, Number::Triad),
        (Quality::Major, Number::Seventh),
        (Quality::Minor, Number::Seventh),
        (Quality::Augmented, Number::Seventh),
        (Quality::AugmentedMajor, Number::Seventh),
        (Quality::Diminished, Number::Seventh),
        (Quality::HalfDiminished, Number::Seventh),
        (Quality::MinorMajor, Number::Seventh),
        (Quality::Dominant, Number::Seventh),
        (Quality::Dominant, Number::Ninth),
        (Quality::Major, Number::Ninth),
        (Quality::Dominant, Number::Eleventh),
        (Quality::Major, Number::Eleventh),
        (Quality::Minor, Number::Eleventh),
        (Quality::Dominant, Number::Thirteenth),
        (Quality::Major, Number::Thirteenth),
        (Quality::Minor, Number::Thirteenth),
    ]
}

/// The list of chords holds 22 pairs, each once, and they are the pairs of
/// the table.
pub proof fn chord_table_is_complete(quality: Quality, number: Number, place: int)
    ensures
        chord_table().len() == 22,
        in_chord_table(quality, number) <==> 0 <= place_in_table(quality, number) < 22,
        in_chord_table(quality, number) ==> chord_table()[place_in_table(quality, number)] == (
            quality,
            number,
        ),
        0 <= place < 22 ==> in_chord_table(chord_table()[place].0, chord_table()[place].1)
            && place_in_table(chord_table()[place].0, chord_table()[place].1) == place,
{
}

/// The chords of the table, in the order in which they are listed.
pub fn available_chords() -> (table: Vec<(Quality, Number)>)
    ensures
        table@ == chord_table(),
{
    let table = vec![
        (Quality::Major, Number::Triad),
        (Quality::Minor, Number::Triad),
        (Quality::Suspended2, Number::Triad),
        (Quality::Suspended4, Number::Triad),
        (Quality::Augmented, Number::Triad),
        (Quality::Diminished, Number::Triad),
        (Quality::Major, Number::Seventh),
        (Quality::Minor, Number::Seventh),
        (Quality::Augmented, Number::Seventh),
        (Quality::AugmentedMajor, Number::Seventh),
        (Quality::Diminished, Number::Seventh),
        (Quality::HalfDiminished, Number::Seventh),
        (Quality::MinorMajor, Number::Seventh),
        (Quality::Dominant, Number::Seventh),
        (Quality::Dominant, Number::Ninth),
        (Quality::Major, Number::Ninth),
        (Quality::Dominant, Number::Eleventh),
        (Quality::Major, Number::Eleventh),
        (Quality::Minor, Number::Eleventh),
        (Quality::Dominant, Number::Thirteenth),
        (Quality::Major, Number::Thirteenth),
        (Quality::Minor, Number::Thirteenth),
    ];
    assert(table@ =~= chord_table());
    table
}

} // verus!
