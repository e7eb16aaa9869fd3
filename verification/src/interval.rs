//! Steps between consecutive notes, and the walk that turns a root and a
//! list of steps into notes.

use vstd::prelude::*;
use crate::note::{Note, PitchClass};

verus! {

/// Why an interval could not be made.
#[derive(Debug, Clone, Copy, PartialEq, Eq, Structural)]
pub enum IntervalError {
    /// The semitone count is 0 or more than 12.
    InvalidSemitone,
}

impl IntervalError {
    /// What went wrong, in words.
    pub open spec fn label(self) -> Seq<char> {
        match self {
            IntervalError::InvalidSemitone => "Invalid Semitone"@,
        }
    }

    /// What went wrong, in words.
    pub fn message(&self) -> (text: &'static str)
        ensures
            text@ == self.label(),
    {
        match self {
            IntervalError::InvalidSemitone => "Invalid Semitone",
        }
    }
}

/// The largest step, an octave.
pub const MAX_SEMITONES: u8 = 12;

/// The highest position that a note can have.
pub const TOP_POSITION: u16 = 3071;

/// A step of 1 to 12 semitones.
#[derive(Debug, Clone, Copy, PartialEq, Eq, Structural)]
pub struct Interval {
    semitone_count: u8,
}

/// The semitone counts of a list of intervals.
pub open spec fn steps_of(intervals: Seq<Interval>) -> Seq<int> {
    intervals.map_values(|i: Interval| i.semitones())
}

/// Whether every step is one that an interval can hold.
pub open spec fn steps_in_range(steps: Seq<int>) -> bool {
    forall|i: int| 0 <= i < steps.len() ==> 1 <= #[trigger] steps[i] <= 12
}

/// The sum of the steps.
pub open spec fn total(steps: Seq<int>) -> int
    decreases steps.len(),
{
    if steps.len() == 0 {
        0
    } else {
        total(steps.drop_last()) + steps.last()
    }
}

/// The note one step above `from`: the pitch class moves round the octave,
/// and the octave goes up by one exactly when the pitch class passes B.
pub open spec fn step(from: Note, semitones: int) -> Note {
    let reached = from.pitch_class.ordinal() + semitones;
    Note {
        pitch_class: PitchClass::at(reached),
        octave: if reached >= 12 {
            (from.octave + 1) as u8
        } else {
            from.octave
        },
    }
}

/// The root followed by the notes that the steps lead to, one after the
/// other.
pub open spec fn walk(root: Note, steps: Seq<int>) -> Seq<Note>
    decreases steps.len(),
{
    if steps.len() == 0 {
        seq![root]
    } else {
        let before = walk(root, steps.drop_last());
        before.push(step(before.last(), steps.last()))
    }
}

/// The sum of a prefix of ranged steps is at most the sum of them all.
pub proof fn total_of_prefix(steps: Seq<int>, n: int)
    requires
        steps_in_range(steps),
        0 <= n <= steps.len(),
    ensures
        0 <= total(steps.take(n)) <= total(steps),
        n < steps.len() ==> total(steps.take(n + 1)) == total(steps.take(n)) + steps[n],
        total(steps) <= 12 * steps.len(),
    decreases steps.len(),
{
    if steps.len() == 0 {
        assert(steps.take(n) =~= steps);
    } else {
        let shorter = steps.drop_last();
        if n == steps.len() {
            assert(steps.take(n) =~= steps);
            total_of_prefix(shorter, n - 1);
        } else {
            assert(steps.take(n) =~= shorter.take(n));
            total_of_prefix(shorter, n);
            assert(steps.take(n + 1).drop_last() =~= steps.take(n));
        }
    }
}

/// The sum of up to seven steps, written out.
pub proof fn total_written_out(steps: Seq<int>)
    requires
        steps.len() <= 7,
    ensures
        total(steps) == (if steps.len() > 0 {
            steps[0]
        } else {
            0
        }) + (if steps.len() > 1 {
            steps[1]
        } else {
            0
        }) + (if steps.len() > 2 {
            steps[2]
        } else {
            0
        }) + (if steps.len() > 3 {
            steps[3]
        } else {
            0
        }) + (if steps.len() > 4 {
            steps[4]
        } else {
            0
        }) + (if steps.len() > 5 {
            steps[5]
        } else {
            0
        }) + (if steps.len() > 6 {
            steps[6]
        } else {
            0
        }),
    decreases steps.len(),
{
    if steps.len() > 0 {
        total_written_out(steps.drop_last());
    }
}

/// A walk has one note more than it has steps, starts at the root, and
/// each of its prefixes is the walk along the steps so far.
pub proof fn walk_prefix(root: Note, steps: Seq<int>, n: int)
    requires
        0 <= n <= steps.len(),
    ensures
        walk(root, steps).len() == steps.len() + 1,
        walk(root, steps)[0] == root,
        walk(root, steps.take(n)) == walk(root, steps).take(n + 1),
        n < steps.len() ==> walk(root, steps)[n + 1] == step(walk(root, steps)[n], steps[n]),
    decreases steps.len(),
{
    if steps.len() == 0 {
        assert(steps.take(n) =~= steps);
        assert(walk(root, steps).take(1) =~= walk(root, steps));
    } else {
        let shorter = steps.drop_last();
        walk_prefix(root, shorter, 0);
        if n == steps.len() {
            assert(steps.take(n) =~= steps);
            assert(walk(root, steps).take(n + 1) =~= walk(root, steps));
        } else {
            walk_prefix(root, shorter, n);
            assert(steps.take(n) =~= shorter.take(n));
            assert(walk(root, shorter).take(n + 1) =~= walk(root, steps).take(n + 1));
            if n + 1 < steps.len() {
                assert(shorter[n] == steps[n]);
            }
        }
    }
}

/// One step from a note: the position rises by the step, and the octave
/// rises, by exactly one, exactly where the pitch class does not rise.
pub proof fn step_rises(from: Note, semitones: int)
    requires
        1 <= semitones <= 12,
        from.position() + semitones <= TOP_POSITION,
    ensures
        step(from, semitones).position() == from.position() + semitones,
        step(from, semitones).pitch_class.ordinal() <= from.pitch_class.ordinal() ==> step(
            from,
            semitones,
        ).octave == from.octave + 1,
        step(from, semitones).pitch_class.ordinal() > from.pitch_class.ordinal() ==> step(
            from,
            semitones,
        ).octave == from.octave,
{
    let reached = from.pitch_class.ordinal() + semitones;
    PitchClass::ordinal_of_at(reached);
    assert(0 <= from.pitch_class.ordinal() < 12);
    if reached >= 12 {
        assert(reached % 12 == reached - 12);
    } else {
        assert(reached % 12 == reached);
    }
}

/// As long as the walk stays below the highest octave, each of its notes
/// lies above the root by the sum of the steps that lead to it.
pub proof fn walk_positions(root: Note, steps: Seq<int>, n: int)
    requires
        steps_in_range(steps),
        root.position() + total(steps) <= TOP_POSITION,
        0 <= n <= steps.len(),
    ensures
        walk(root, steps)[n].position() == root.position() + total(steps.take(n)),
    decreases n,
{
    walk_prefix(root, steps, n);
    total_of_prefix(steps, n);
    if n == 0 {
        assert(steps.take(0) =~= Seq::<int>::empty());
    } else {
        walk_positions(root, steps, n - 1);
        walk_prefix(root, steps, n - 1);
        total_of_prefix(steps, n - 1);
        step_rises(walk(root, steps)[n - 1], steps[n - 1]);
    }
}

/// Between two consecutive notes of a walk the octave never falls, and it
/// rises, by exactly one, exactly where the pitch class does not rise.
pub proof fn walk_octaves(root: Note, steps: Seq<int>, n: int)
    requires
        steps_in_range(steps),
        root.position() + total(steps) <= TOP_POSITION,
        0 <= n < steps.len(),
    ensures
        ({
            let notes = walk(root, steps);
            if notes[n + 1].pitch_class.ordinal() <= notes[n].pitch_class.ordinal() {
                notes[n + 1].octave == notes[n].octave + 1
            } else {
                notes[n + 1].octave == notes[n].octave
            }
        }),
{
    walk_prefix(root, steps, n);
    walk_positions(root, steps, n);
    total_of_prefix(steps, n);
    total_of_prefix(steps, n + 1);
    step_rises(walk(root, steps)[n], steps[n]);
}

/// No interval holds a negative count, so the sum of the first `n` counts
/// is at most the sum of all.
proof fn total_never_falls(intervals: Seq<Interval>, n: int)
    requires
        0 <= n <= intervals.len(),
    ensures
        total(steps_of(intervals).take(n)) <= total(steps_of(intervals)),
    decreases intervals.len() - n,
{
    let steps = steps_of(intervals);
    if n == intervals.len() {
        assert(steps.take(n) =~= steps);
    } else {
        total_never_falls(intervals, n + 1);
        assert(steps.take(n + 1).drop_last() =~= steps.take(n));
        assert(steps.take(n + 1).last() == intervals[n].semitones());
    }
}

impl Interval {
    /// Every interval holds a step of 1 to 12 semitones.
    #[verifier::type_invariant]
    pub open spec fn in_range(self) -> bool {
        1 <= self.semitones() <= 12
    }

    /// The size of the step in semitones.
    pub closed spec fn semitones(self) -> int {
        self.semitone_count as int
    }

    /// The size of the step in semitones.
    pub fn semitone_count(&self) -> (count: u8)
        ensures
            count == self.semitones(),
            1 <= count <= 12,
    {
        proof {
            use_type_invariant(self);
        }
        self.semitone_count
    }

    /// An interval of `count` semitones, where `count` is from 1 to 12.
    pub fn from_semitone(count: u8) -> (made: Result<Interval, IntervalError>)
        ensures
            made is Ok <==> 1 <= count <= 12,
            made matches Ok(interval) ==> interval.semitones() == count,
            made matches Err(e) ==> e == IntervalError::InvalidSemitone,
    {
        if 1 <= count && count <= MAX_SEMITONES {
            Ok(Interval { semitone_count: count })
        } else {
            Err(IntervalError::InvalidSemitone)
        }
    }

    /// The intervals of the given sizes, where each size is from 1 to 12.
    pub fn from_semitones(counts: &[u8]) -> (made: Result<Vec<Interval>, IntervalError>)
        ensures
            made is Ok <==> forall|i: int| 0 <= i < counts@.len() ==> 1 <= #[trigger] counts@[i] <= 12,
            made matches Ok(intervals) ==> steps_of(intervals@) == counts@.map_values(
                |c: u8| c as int,
            ) && steps_in_range(steps_of(intervals@)),
            made matches Err(e) ==> e == IntervalError::InvalidSemitone,
    {
        let mut intervals: Vec<Interval> = Vec::new();
        let mut i: usize = 0;
        while i < counts.len()
            invariant
                i <= counts.len(),
                intervals.len() == i,
                forall|j: int| 0 <= j < i ==> 1 <= #[trigger] counts@[j] <= 12,
                forall|j: int| 0 <= j < i ==> (#[trigger] intervals@[j]).semitones() == counts@[j],
            decreases counts.len() - i,
        {
            match Interval::from_semitone(counts[i]) {
                Ok(interval) => {
                    intervals.push(interval);
                },
                Err(e) => {
                    return Err(e);
                },
            }
            i = i + 1;
        }
        assert(steps_of(intervals@) =~= counts@.map_values(|c: u8| c as int));
        Ok(intervals)
    }

    /// The notes that the intervals lead to from `root`, the root first.
    ///
    /// The walk must stay below the top of octave 255.
    pub fn to_notes(root: Note, intervals: Vec<Interval>) -> (notes: Vec<Note>)
        requires
            root.position() + total(steps_of(intervals@)) <= TOP_POSITION,
        ensures
            notes@ == walk(root, steps_of(intervals@)),
            notes.len() == intervals.len() + 1,
    {
        let ghost steps = steps_of(intervals@);
        let mut notes: Vec<Note> = Vec::new();
        notes.push(root);
        let mut last = root;
        let mut i: usize = 0;
        proof {
            assert(steps.take(0) =~= Seq::<int>::empty());
        }
        while i < intervals.len()
            invariant
                i <= intervals.len(),
                steps == steps_of(intervals@),
                steps_in_range(steps.take(i as int)),
                root.position() + total(steps) <= TOP_POSITION,
                notes@ == walk(root, steps.take(i as int)),
                notes.len() == i + 1,
                last == notes@.last(),
            decreases intervals.len() - i,
        {
            let count = intervals[i].semitone_count();
            proof {
                let so_far = steps.take(i + 1);
                assert(so_far.take(i as int) =~= steps.take(i as int));
                assert(so_far.drop_last() =~= steps.take(i as int));
                assert(so_far.take(i + 1) =~= so_far);
                assert forall|j: int| 0 <= j < so_far.len() implies 1 <= #[trigger] so_far[j]
                    <= 12 by {
                    if j < i {
                        assert(so_far[j] == steps.take(i as int)[j]);
                    }
                }
                total_never_falls(intervals@, i + 1);
                walk_prefix(root, so_far, i as int);
                walk_positions(root, so_far, i as int);
                total_of_prefix(so_far, i as int);
                step_rises(last, count as int);
            }
            let reached = last.pitch_class.to_u8() + count;
            let octave = if reached >= 12 {
                last.octave + 1
            } else {
                last.octave
            };
            last = Note { pitch_class: PitchClass::from_u8(reached), octave };
            notes.push(last);
            i = i + 1;
        }
        proof {
            assert(steps.take(intervals.len() as int) =~= steps);
        }
        notes
    }
}

} // verus!
