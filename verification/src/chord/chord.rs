use vstd::arithmetic::div_mod::{lemma_mod_add_multiples_vanish, lemma_small_mod};
use vstd::prelude::*;
use vstd::utf8::encode_utf8;
use crate::chord::errors::ChordError;
use crate::chord::inversion::Inversion;
use crate::chord::number::Number;
use crate::chord::quality::Quality;
use crate::chord::table::{chord_steps, chord_steps_bounds, in_chord_table};
use crate::chord::voicing::{ascend, ascend_steps, lift, lower, place_above, rotate_left, settle};
use crate::interval::{
    steps_in_range, steps_of, total, total_of_prefix, walk, walk_octaves, walk_positions,
    walk_prefix, Interval, TOP_POSITION,
};
use crate::note::note::REFERENCE_OCTAVE;
use crate::note::pitch_class::leading_pitch;
use crate::note::{Note, Notes, PitchClass};
use crate::text::{
    ascii_byte_is_between_cuts, byte_slice, ends_are_cuts, find_byte, find_byte_is_first,
    first_byte, slice, slice_from, trimmed,
};

verus! {

/// The byte `/`, which parts a chord from its bass note or inversion.
pub const SLASH: u8 = 0x2f;

/// The place of the first note of pitch class `pitch` among `notes`, from
/// place `from` on.
pub open spec fn first_place(notes: Seq<Note>, pitch: PitchClass, from: int) -> Option<int>
    decreases notes.len() - from,
{
    if from < 0 || from >= notes.len() {
        None
    } else if notes[from].pitch_class == pitch {
        Some(from)
    } else {
        first_place(notes, pitch, from + 1)
    }
}

/// What a chord is, as plain values.
pub struct ChordView {
    /// The root of the chord.
    pub root: PitchClass,
    /// The octave of the root.
    pub octave: u8,
    /// The steps between the notes of the chord in root position.
    pub steps: Seq<int>,
    /// The quality that the chord was made with.
    pub quality: Quality,
    /// The number that the chord was made with.
    pub number: Number,
    /// How many notes of the root position stand after the others.
    pub inversion: int,
}

impl ChordView {
    /// The named chord on `root`, in root position and in the reference
    /// octave.
    pub open spec fn of(root: PitchClass, quality: Quality, number: Number) -> ChordView {
        ChordView {
            root,
            octave: REFERENCE_OCTAVE,
            steps: chord_steps(quality, number),
            quality,
            number,
            inversion: 0,
        }
    }

    /// What every chord is: it starts in the reference octave, its steps
    /// are those that the table gives for its quality and number, and its
    /// inversion names one of its notes.
    pub open spec fn wf(self) -> bool {
        &&& self.octave == REFERENCE_OCTAVE
        &&& self.steps == chord_steps(self.quality, self.number)
        &&& 0 <= self.inversion <= self.steps.len()
    }

    /// The root as a note.
    pub open spec fn root_note(self) -> Note {
        Note { pitch_class: self.root, octave: self.octave }
    }

    /// The notes of the chord in root position, as the steps give them.
    pub open spec fn root_position(self) -> Seq<Note> {
        walk(self.root_note(), self.steps)
    }

    /// The notes of the chord: those of the root position, rotated so that
    /// the note that the inversion names comes first, brought down so that
    /// this note lies in the octave of the root, and made to ascend.
    pub open spec fn notes(self) -> Seq<Note> {
        ascend(settle(rotate_left(self.root_position(), self.inversion), self.octave))
    }

    /// The chord as `inversion` asks for it. A number is taken as the
    /// inversion. A bass note is looked up in the root position, and the
    /// place of its first occurrence is the inversion; where the chord does
    /// not hold the bass note, it stays as it is.
    pub open spec fn inverted_by(self, inversion: Inversion) -> ChordView {
        match inversion {
            Inversion::Number(number) => self.invert(number as int),
            Inversion::BassNote(bass) => match first_place(self.root_position(), bass, 0) {
                Some(place) => self.invert(place),
                None => self,
            },
        }
    }

    /// The same chord with another inversion, which wraps round the number
    /// of its notes.
    pub open spec fn invert(self, inversion: int) -> ChordView {
        ChordView { inversion: inversion % (self.steps.len() + 1) as int, ..self }
    }
}

/// The notes of a chord in root position stay within three octaves from the
/// reference octave up.
pub proof fn root_position_bounds(chord: ChordView)
    requires
        chord.wf(),
    ensures
        steps_in_range(chord.steps),
        2 <= chord.steps.len() <= 6,
        total(chord.steps) <= 21,
        chord.root_note().position() + total(chord.steps) <= TOP_POSITION,
        chord.root_position().len() == chord.steps.len() + 1,
        chord.root_position()[0] == chord.root_note(),
        forall|n: int|
            0 <= n <= chord.steps.len() ==> 4 <= (#[trigger] chord.root_position()[n]).octave <= 6,
{
    chord_steps_bounds(chord.quality, chord.number);
    PitchClass::ordinal_is_injective(chord.root, chord.root);
    walk_prefix(chord.root_note(), chord.steps, 0);
    assert forall|n: int| 0 <= n <= chord.steps.len() implies 4 <= (
    #[trigger] chord.root_position()[n]).octave <= 6 by {
        walk_positions(chord.root_note(), chord.steps, n);
        total_of_prefix(chord.steps, n);
        let note = chord.root_position()[n];
        PitchClass::ordinal_is_injective(note.pitch_class, note.pitch_class);
    }
}

/// The place in the root position of the note that comes `n`-th in the
/// chord: `inversion` places further on, counted round the chord.
pub open spec fn place_in_root_position(chord: ChordView, n: int) -> int {
    if n + chord.inversion <= chord.steps.len() {
        n + chord.inversion
    } else {
        n + chord.inversion - (chord.steps.len() + 1)
    }
}

/// The note of a chord at place `n`, seen from the root position: it has
/// the pitch class of the note at its place there; it lies in or above the
/// octave of the root; up to the place where the root position starts
/// over, it lies as far above the first note as it does in the root
/// position; and it follows the note before it as closely as it can.
proof fn voicing_at(chord: ChordView, n: int)
    requires
        chord.wf(),
        0 <= n <= chord.steps.len(),
    ensures
        chord.notes().len() == chord.steps.len() + 1,
        chord.notes()[n].pitch_class == chord.root_position()[place_in_root_position(
            chord,
            n,
        )].pitch_class,
        chord.octave <= chord.notes()[n].octave <= chord.octave + n,
        n + chord.inversion <= chord.steps.len() ==> chord.notes()[n].octave
            == chord.root_position()[n + chord.inversion].octave
            - chord.root_position()[chord.inversion].octave + chord.octave,
        n > 0 ==> chord.notes()[n] == place_above(
            chord.notes()[n - 1],
            chord.notes()[n].pitch_class,
        ),
    decreases n,
{
    let raw = chord.root_position();
    let count: int = (chord.steps.len() + 1) as int;
    let turned = rotate_left(raw, chord.inversion);
    let settled = settle(turned, chord.octave);
    root_position_bounds(chord);
    assert(turned.len() == count);
    let from = place_in_root_position(chord, n);
    assert(turned[n] == raw[from]);
    assert(turned[0] == raw[chord.inversion]);
    let by = raw[chord.inversion].octave - chord.octave;
    assert(4 <= raw[from].octave <= 6);
    assert(4 <= raw[chord.inversion].octave <= 6);
    assert(settled[n] == lower(turned[n], by));
    assert(settled[0] == lower(turned[0], by));
    assert(settled[n].octave == raw[from].octave - by);
    ascend_steps(settled, n);
    if n > 0 {
        voicing_at(chord, n - 1);
        let below = chord.notes()[n - 1];
        let note = settled[n];
        assert(chord.notes()[n] == lift(below, note));
        if n + chord.inversion < count {
            assert(place_in_root_position(chord, n - 1) == from - 1);
            walk_octaves(chord.root_note(), chord.steps, from - 1);
            assert(below.pitch_class == raw[from - 1].pitch_class);
            assert(below.octave == raw[from - 1].octave - by);
            assert(note.pitch_class == raw[from].pitch_class);
        } else {
            raw_octaves_rise(chord, from, chord.inversion);
            assert(note.octave <= chord.octave);
        }
    }
}

/// The octaves of a chord in root position never fall.
proof fn raw_octaves_rise(chord: ChordView, low: int, high: int)
    requires
        chord.wf(),
        0 <= low <= high <= chord.steps.len(),
    ensures
        chord.root_position()[low].octave <= chord.root_position()[high].octave,
{
    root_position_bounds(chord);
    walk_positions(chord.root_note(), chord.steps, low);
    walk_positions(chord.root_note(), chord.steps, high);
    total_of_prefix(chord.steps, high);
    total_of_prefix(chord.steps.take(high), low);
    assert(chord.steps.take(high).take(low) =~= chord.steps.take(low));
    let a = chord.root_position()[low];
    let b = chord.root_position()[high];
    PitchClass::ordinal_is_injective(a.pitch_class, b.pitch_class);
}

/// Counting `by` places on from `n`, round `count` places.
proof fn counted_round(n: int, by: int, count: int)
    requires
        0 <= n < count,
        0 <= by < count,
    ensures
        (n + by) % count == if n + by < count {
            n + by
        } else {
            n + by - count
        },
        by % count == by,
        count % count == 0,
        count > 1 ==> (count + 1) % count == 1,
{
    lemma_small_mod(by as nat, count as nat);
    lemma_mod_add_multiples_vanish(0, count);
    lemma_small_mod(0, count as nat);
    if n + by < count {
        lemma_small_mod((n + by) as nat, count as nat);
    } else {
        lemma_mod_add_multiples_vanish(n + by - count, count);
        lemma_small_mod((n + by - count) as nat, count as nat);
    }
    if count > 1 {
        lemma_mod_add_multiples_vanish(1, count);
        lemma_small_mod(1, count as nat);
    }
}

/// The notes of a chord have the pitch classes of the root position, taken
/// round the chord from the note that the inversion names.
pub proof fn voicing_turns(chord: ChordView, n: int)
    requires
        chord.wf(),
        0 <= n <= chord.steps.len(),
    ensures
        chord.notes().len() == chord.steps.len() + 1,
        chord.notes()[n].pitch_class == chord.root_position()[(n + chord.inversion) % (
        chord.steps.len() + 1) as int].pitch_class,
{
    voicing_at(chord, n);
    counted_round(n, chord.inversion, (chord.steps.len() + 1) as int);
}

/// The first note of a chord lies in the octave of the root, and each of
/// the others follows the one before it as closely as it can: where the
/// pitch class does not rise from one note to the next, the octave rises
/// by exactly one, and where it rises, the octave stays. So each note
/// sounds higher than the one before it, by an octave at most.
pub proof fn voicing_ascends(chord: ChordView, n: int)
    requires
        chord.wf(),
        0 <= n <= chord.steps.len(),
    ensures
        chord.notes()[0].octave == chord.octave,
        n > 0 ==> chord.notes()[n - 1].position() < chord.notes()[n].position()
            <= chord.notes()[n - 1].position() + 12,
        n > 0 ==> chord.notes()[n] == place_above(
            chord.notes()[n - 1],
            chord.notes()[n].pitch_class,
        ),
        n > 0 && chord.notes()[n].pitch_class.ordinal() <= chord.notes()[n
            - 1].pitch_class.ordinal() ==> chord.notes()[n].octave == chord.notes()[n - 1].octave
            + 1,
        n > 0 && chord.notes()[n].pitch_class.ordinal() > chord.notes()[n
            - 1].pitch_class.ordinal() ==> chord.notes()[n].octave == chord.notes()[n - 1].octave,
{
    voicing_at(chord, 0);
    voicing_at(chord, n);
    if n > 0 {
        voicing_at(chord, n - 1);
        PitchClass::ordinal_is_injective(
            chord.notes()[n].pitch_class,
            chord.notes()[n - 1].pitch_class,
        );
    }
}

/// In root position the notes of a chord are the walk along its steps.
pub proof fn root_position_is_walk(chord: ChordView)
    requires
        chord.wf(),
        chord.inversion == 0,
    ensures
        chord.notes() == chord.root_position(),
{
    root_position_bounds(chord);
    voicing_at(chord, 0);
    assert forall|n: int| 0 <= n <= chord.steps.len() implies chord.notes()[n]
        == chord.root_position()[n] by {
        voicing_at(chord, n);
    }
    assert(chord.notes() =~= chord.root_position());
}

/// Every chord of the table has as many notes as its number says, and
/// its last note lies above its root by the sum of its steps: the pitch
/// class rises by that sum less twelve for each octave between the two.
pub proof fn chord_spans_its_steps(root: PitchClass, quality: Quality, number: Number)
    ensures
        ({
            let chord = ChordView::of(root, quality, number);
            let notes = chord.notes();
            &&& chord.wf()
            &&& notes.len() == chord.steps.len() + 1
            &&& in_chord_table(quality, number) ==> notes.len() == number.tones()
            &&& notes[0] == chord.root_note()
            &&& notes.last().position() - notes[0].position() == total(chord.steps)
            &&& notes.last().pitch_class.ordinal() - notes[0].pitch_class.ordinal() + 12 * (
            notes.last().octave - notes[0].octave) == total(chord.steps)
        }),
{
    let chord = ChordView::of(root, quality, number);
    chord_steps_bounds(quality, number);
    root_position_bounds(chord);
    root_position_is_walk(chord);
    walk_positions(chord.root_note(), chord.steps, chord.steps.len() as int);
    assert(chord.steps.take(chord.steps.len() as int) =~= chord.steps);
}

/// The notes of a chord depend on nothing but the chord: two chords that
/// are equal in every part stand for the same notes.
pub proof fn notes_depend_on_the_chord_alone(first: Chord, second: Chord)
    requires
        first@ == second@,
    ensures
        first.note_seq() == second.note_seq(),
{
}

/// An inversion wraps round the number of notes: with `k` steps, asking
/// for inversion `k + 1` gives the root position, and asking for `k + 2`
/// gives the first inversion.
pub proof fn inversion_wraps(chord: ChordView, inversion: int)
    requires
        chord.wf(),
        inversion >= 0,
    ensures
        chord.invert(inversion).wf(),
        chord.invert(inversion).inversion == inversion % (chord.steps.len() + 1) as int,
        inversion <= chord.steps.len() ==> chord.invert(inversion).inversion == inversion,
        chord.invert(chord.steps.len() as int + 1).inversion == 0,
        chord.invert(chord.steps.len() as int + 2).inversion == 1,
{
    chord_steps_bounds(chord.quality, chord.number);
    let count: int = (chord.steps.len() + 1) as int;
    assert(0 <= inversion % count < count);
    counted_round(0, 0, count);
    if inversion < count {
        counted_round(0, inversion, count);
    }
}

/// The quality and the number that the main clause of a chord names. A
/// clause that names no number, or whose number cannot be read, stands for
/// a triad.
pub open spec fn kind_named_in(clause: Seq<char>) -> Result<(Quality, Number), ChordError> {
    match Quality::named_in(clause) {
        Err(e) => Err(e),
        Ok((quality, None)) => Ok((quality, Number::Triad)),
        Ok((quality, Some(span))) => match Number::named_in(
            byte_slice(clause, span.end as int, encode_utf8(clause).len() as int),
        ) {
            Ok((number, _)) => Ok((quality, number)),
            Err(_) => Ok((quality, Number::Triad)),
        },
    }
}

/// The chord that the text before the slash names: a root, and after it
/// the quality and the number.
pub open spec fn chord_named_before_slash(head: Seq<char>) -> Result<ChordView, ChordError> {
    match leading_pitch(head) {
        Err(_) => Err(ChordError::InvalidPitch),
        Ok((root, span)) => match kind_named_in(
            trimmed(byte_slice(head, span.end as int, encode_utf8(head).len() as int)),
        ) {
            Err(e) => Err(e),
            Ok((quality, number)) => Ok(ChordView::of(root, quality, number)),
        },
    }
}

/// The chord that `text` names. Where `text` holds a slash, the chord
/// stands before the first one, and the inversion or the bass note after
/// it.
pub open spec fn chord_named_in(text: Seq<char>) -> Result<ChordView, ChordError> {
    let bytes = encode_utf8(text);
    match find_byte(bytes, SLASH, 0) {
        None => chord_named_before_slash(text),
        Some(slash) => match chord_named_before_slash(byte_slice(text, 0, slash)) {
            Err(e) => Err(e),
            Ok(chord) => match Inversion::named_in(
                trimmed(byte_slice(text, slash + 1, bytes.len() as int)),
            ) {
                Ok(inversion) => Ok(chord.inverted_by(inversion)),
                Err(e) => Err(e),
            },
        },
    }
}

/// A chord.
#[derive(Debug)]
pub struct Chord {
    root: PitchClass,
    octave: u8,
    intervals: Vec<Interval>,
    quality: Quality,
    number: Number,
    inversion: u8,
}

impl View for Chord {
    type V = ChordView;

    closed spec fn view(&self) -> ChordView {
        ChordView {
            root: self.root,
            octave: self.octave,
            steps: steps_of(self.intervals@),
            quality: self.quality,
            number: self.number,
            inversion: self.inversion as int,
        }
    }
}

impl Clone for Chord {
    fn clone(&self) -> (copy: Chord)
        ensures
            copy@ == self@,
    {
        proof {
            use_type_invariant(self);
        }
        let intervals = self.intervals.clone();
        assert(steps_of(intervals@) =~= steps_of(self.intervals@));
        Chord {
            root: self.root,
            octave: self.octave,
            intervals,
            quality: self.quality,
            number: self.number,
            inversion: self.inversion,
        }
    }
}

/// The intervals of the given sizes.
fn intervals_of(counts: Vec<u8>) -> (intervals: Vec<Interval>)
    requires
        forall|i: int| 0 <= i < counts@.len() ==> 1 <= #[trigger] counts@[i] <= 12,
    ensures
        steps_of(intervals@) == counts@.map_values(|c: u8| c as int),
{
    match Interval::from_semitones(counts.as_slice()) {
        Ok(intervals) => intervals,
        Err(_) => Vec::new(),
    }
}

impl Chord {
    /// Every chord is well formed.
    #[verifier::type_invariant]
    pub open spec fn wf(self) -> bool {
        self@.wf()
    }

    /// The intervals between the notes of the named chord, by the table of
    /// chords. A pair that the table does not hold gets the intervals of a
    /// major triad.
    pub fn chord_intervals(quality: Quality, number: Number) -> (intervals: Vec<Interval>)
        ensures
            steps_of(intervals@) == chord_steps(quality, number),
    {
        let counts: Vec<u8> = match (quality, number) {
            (Quality::Major, Number::Triad) => vec![4, 3],
            (Quality::Minor, Number::Triad) => vec![3, 4],
            (Quality::Suspended2, Number::Triad) => vec![2, 5],
            (Quality::Suspended4, Number::Triad) => vec![5, 7],
            (Quality::Augmented, Number::Triad) => vec![4, 4],
            (Quality::Diminished, Number::Triad) => vec![3, 3],
            (Quality::Major, Number::Seventh) => vec![4, 3, 4],
            (Quality::Minor, Number::Seventh) => vec![3, 4, 3],
            (Quality::Augmented, Number::Seventh) => vec![4, 4, 2],
            (Quality::AugmentedMajor, Number::Seventh) => vec![4, 4, 3],
            (Quality::Diminished, Number::Seventh) => vec![3, 3, 3],
            (Quality::HalfDiminished, Number::Seventh) => vec![3, 3, 4],
            (Quality::MinorMajor, Number::Seventh) => vec![3, 4, 4],
            (Quality::Dominant, Number::Seventh) => vec![4, 3, 3],
            (Quality::Dominant, Number::Ninth) => vec![4, 3, 3, 4],
            (Quality::Major, Number::Ninth) => vec![4, 3, 4, 3],
            (Quality::Dominant, Number::Eleventh) => vec![4, 3, 3, 4, 4],
            (Quality::Major, Number::Eleventh) => vec![4, 3, 4, 3, 3],
            (Quality::Minor, Number::Eleventh) => vec![3, 4, 3, 4, 3],
            (Quality::Dominant, Number::Thirteenth) => vec![4, 3, 3, 4, 3, 4],
            (Quality::Major, Number::Thirteenth) => vec![4, 3, 4, 3, 3, 4],
            (Quality::Minor, Number::Thirteenth) => vec![3, 4, 3, 4, 3, 4],
            _ => vec![4, 3],
        };
        proof {
            chord_steps_bounds(quality, number);
            assert(counts@.map_values(|c: u8| c as int) =~= chord_steps(quality, number));
        }
        intervals_of(counts)
    }

    /// The chord of the given root, quality and number, in root position.
    pub fn new(root: PitchClass, quality: Quality, number: Number) -> (chord: Chord)
        ensures
            chord@ == ChordView::of(root, quality, number),
    {
        Chord::with_inversion(root, quality, number, 0)
    }

    /// The chord of the given root, quality and number, in the given
    /// inversion, which wraps round the number of its notes.
    pub fn with_inversion(
        root: PitchClass,
        quality: Quality,
        number: Number,
        inversion: u8,
    ) -> (chord: Chord)
        ensures
            chord@ == ChordView::of(root, quality, number).invert(inversion as int),
    {
        let intervals = Chord::chord_intervals(quality, number);
        proof {
            chord_steps_bounds(quality, number);
        }
        let notes: u8 = (intervals.len() + 1) as u8;
        let inversion = inversion % notes;
        Chord { root, octave: REFERENCE_OCTAVE, intervals, quality, number, inversion }
    }

    /// The root of the chord.
    pub fn root(&self) -> (root: PitchClass)
        ensures
            root == self@.root,
    {
        self.root
    }

    /// The octave of the root.
    pub fn octave(&self) -> (octave: u8)
        ensures
            octave == self@.octave,
    {
        self.octave
    }

    /// The intervals between the notes of the chord in root position.
    pub fn intervals(&self) -> (intervals: &Vec<Interval>)
        ensures
            steps_of(intervals@) == self@.steps,
    {
        &self.intervals
    }

    /// The quality that the chord was made with.
    pub fn quality(&self) -> (quality: Quality)
        ensures
            quality == self@.quality,
    {
        self.quality
    }

    /// The number that the chord was made with.
    pub fn number(&self) -> (number: Number)
        ensures
            number == self@.number,
    {
        self.number
    }

    /// The inversion: 0 is the root position, 1 the first inversion, and
    /// so on.
    pub fn inversion(&self) -> (inversion: u8)
        ensures
            inversion == self@.inversion,
            inversion <= self@.steps.len(),
    {
        proof {
            use_type_invariant(self);
        }
        self.inversion
    }

    /// Asks for another voicing of the same chord. The inversion wraps
    /// round the number of notes; nothing else changes.
    pub fn set_inversion(&mut self, inversion: u8)
        ensures
            final(self)@ == old(self)@.invert(inversion as int),
    {
        proof {
            use_type_invariant(&*self);
            root_position_bounds(self@);
        }
        let notes: u8 = (self.intervals.len() + 1) as u8;
        self.inversion = inversion % notes;
    }

    /// Brings the chord into the voicing that `inversion` asks for: the
    /// inversion of that number, or the one whose lowest note is the bass
    /// note. A bass note that the chord does not hold changes nothing.
    pub fn invert(&mut self, inversion: Inversion)
        ensures
            final(self)@ == old(self)@.inverted_by(inversion),
    {
        match inversion {
            Inversion::Number(number) => {
                self.set_inversion(number);
            },
            Inversion::BassNote(bass) => {
                proof {
                    use_type_invariant(&*self);
                    root_position_bounds(self@);
                }
                let root_note = Note { pitch_class: self.root, octave: self.octave };
                let raw = Interval::to_notes(root_note, self.intervals.clone());
                let mut place: usize = 0;
                while place < raw.len()
                    invariant
                        place <= raw.len() <= 7,
                        self@ == old(self)@,
                        self.wf(),
                        inversion == Inversion::BassNote(bass),
                        raw@ == self@.root_position(),
                        raw.len() == self@.steps.len() + 1,
                        first_place(raw@, bass, 0) == first_place(raw@, bass, place as int),
                    decreases raw.len() - place,
                {
                    if raw[place].pitch_class == bass {
                        assert(first_place(raw@, bass, place as int) == Some(place as int));
                        self.set_inversion(place as u8);
                        return;
                    }
                    place = place + 1;
                }
            },
        }
    }

    /// Reads the quality and the number of a chord from its main clause.
    fn kind_from_regex(clause: &str) -> (found: Result<(Quality, Number), ChordError>)
        ensures
            found == kind_named_in(clause@),
    {
        match Quality::from_regex(clause) {
            Err(e) => Err(e),
            Ok((quality, None)) => Ok((quality, Number::Triad)),
            Ok((quality, Some(span))) => match Number::from_regex(slice_from(clause, span.end)) {
                Ok((number, _)) => Ok((quality, number)),
                Err(_) => Ok((quality, Number::Triad)),
            },
        }
    }

    /// Reads a chord without a slash: a pitch, and after it the quality and
    /// the number.
    fn before_slash(head: &str) -> (found: Result<Chord, ChordError>)
        ensures
            match chord_named_before_slash(head@) {
                Ok(view) => found matches Ok(chord) && chord@ == view,
                Err(e) => found matches Err(f) && f == e,
            },
    {
        let (root, span) = match PitchClass::from_regex(head) {
            Ok(hit) => hit,
            Err(e) => {
                return Err(ChordError::from(e));
            },
        };
        match Chord::kind_from_regex(slice_from(head, span.end).trim()) {
            Ok((quality, number)) => Ok(Chord::new(root, quality, number)),
            Err(e) => Err(e),
        }
    }

    /// Reads a chord: a pitch; the quality and the number, where major and
    /// triad may be left out; and, after a slash, the number of the
    /// inversion or the bass note.
    pub fn from_regex(string: &str) -> (found: Result<Chord, ChordError>)
        ensures
            match chord_named_in(string@) {
                Ok(view) => found matches Ok(chord) && chord@ == view,
                Err(e) => found matches Err(f) && f == e,
            },
    {
        match first_byte(string, SLASH) {
            None => Chord::before_slash(string),
            Some(slash) => {
                proof {
                    find_byte_is_first(encode_utf8(string@), SLASH, 0);
                    ascii_byte_is_between_cuts(string@, slash as int);
                    ends_are_cuts(string@);
                }
                let mut chord = match Chord::before_slash(slice(string, 0, slash)) {
                    Ok(chord) => chord,
                    Err(e) => {
                        return Err(e);
                    },
                };
                match Inversion::from_str(slice_from(string, slash + 1).trim()) {
                    Ok(inversion) => {
                        chord.invert(inversion);
                        Ok(chord)
                    },
                    Err(e) => Err(e),
                }
            },
        }
    }
}

impl Notes for Chord {
    open spec fn note_seq(&self) -> Seq<Note> {
        self@.notes()
    }

    /// The notes of the chord, lowest first.
    fn notes(&self) -> (notes: Vec<Note>) {
        proof {
            use_type_invariant(self);
            root_position_bounds(self@);
        }
        let root_note = Note { pitch_class: self.root, octave: self.octave };
        let raw = Interval::to_notes(root_note, self.intervals.clone());
        let count = raw.len();
        let first = self.inversion as usize;

        let mut turned: Vec<Note> = Vec::new();
        let mut i: usize = first;
        while i < count
            invariant
                first <= i <= count,
                count == raw.len(),
                turned@ == raw@.subrange(first as int, i as int),
            decreases count - i,
        {
            turned.push(raw[i]);
            assert(turned@ =~= raw@.subrange(first as int, i + 1));
            i = i + 1;
        }
        let mut j: usize = 0;
        while j < first
            invariant
                j <= first <= count,
                count == raw.len(),
                turned@ == raw@.subrange(first as int, count as int) + raw@.subrange(0, j as int),
            decreases first - j,
        {
            turned.push(raw[j]);
            assert(turned@ =~= raw@.subrange(first as int, count as int) + raw@.subrange(
                0,
                j + 1,
            ));
            j = j + 1;
        }
        assert(turned@ == rotate_left(raw@, first as int));
        assert(forall|n: int| 0 <= n < count ==> 4 <= (#[trigger] turned@[n]).octave <= 6);

        let mut settled: Vec<Note> = Vec::new();
        if turned[0].octave > self.octave {
            let by = turned[0].octave - self.octave;
            let mut k: usize = 0;
            while k < count
                invariant
                    k <= count,
                    count == turned.len(),
                    settled.len() == k,
                    by <= 2,
                    forall|n: int| 0 <= n < count ==> 4 <= (#[trigger] turned@[n]).octave <= 6,
                    forall|n: int| 0 <= n < k ==> settled@[n] == lower(turned@[n], by as int),
                decreases count - k,
            {
                let note = turned[k];
                settled.push(Note { pitch_class: note.pitch_class, octave: note.octave - by });
                k = k + 1;
            }
            assert(settled@ =~= settle(turned@, self.octave));
        } else {
            settled = turned;
        }
        assert(forall|n: int| 0 <= n < count ==> (#[trigger] settled@[n]).octave <= 6);

        let mut voiced: Vec<Note> = Vec::new();
        voiced.push(settled[0]);
        let mut last = settled[0];
        let mut m: usize = 1;
        assert(settled@.take(1) =~= seq![settled@[0]]);
        while m < count
            invariant
                1 <= m <= count <= 7,
                count == settled.len(),
                voiced.len() == m,
                voiced@ == ascend(settled@.take(m as int)),
                last == voiced@.last(),
                last.octave <= 6 + m,
                forall|n: int| 0 <= n < count ==> (#[trigger] settled@[n]).octave <= 6,
            decreases count - m,
        {
            let note = settled[m];
            proof {
                assert(settled@.take(m + 1).drop_last() =~= settled@.take(m as int));
                assert(settled@.take(m + 1).last() == note);
            }
            last = if note.pitch_class.to_u8() <= last.pitch_class.to_u8() {
                Note { pitch_class: note.pitch_class, octave: last.octave + 1 }
            } else if note.octave < last.octave {
                Note { pitch_class: note.pitch_class, octave: last.octave }
            } else {
                note
            };
            voiced.push(last);
            m = m + 1;
        }
        assert(settled@.take(count as int) =~= settled@);
        voiced
    }
}

impl Default for Chord {
    /// The major triad on C, in root position.
    fn default() -> (chord: Chord)
        ensures
            chord@ == ChordView::of(PitchClass::C, Quality::Major, Number::Triad),
    {
        Chord::new(PitchClass::C, Quality::Major, Number::Triad)
    }
}

} // verus!
