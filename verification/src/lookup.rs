use vstd::prelude::*;
use crate::util::{clamp, clamped};

verus! {

/// Number of samples in the lookup table of a spiral segment. Sample `i`
/// belongs to the arc length `i / (STEPS - 1)` of the segment's length, so
/// the first sample is the start of the segment and the last one its end.
pub const STEPS: usize = 1000;

/// Index of the lower sample of the pair that brackets a table position.
///
/// `cell` is the integer part of the position `s / length * (STEPS - 1)`.
/// Positions before the table fall into the first pair, positions at or
/// past the last sample into the last pair.
pub open spec fn lower_index(cell: int) -> int {
    clamped(cell, 0, STEPS - 2)
}

/// Computes the index of the lower sample of the bracketing pair.
pub fn bracket_index(cell: i64) -> (lo: usize)
    ensures
        lo == lower_index(cell as int),
        lo + 1 < STEPS,
        0 <= cell <= STEPS - 1 ==> lo <= cell <= lo + 1,
        0 <= cell <= STEPS - 2 ==> lo == cell,
        cell >= STEPS - 1 ==> lo + 1 == STEPS - 1,
        cell <= 0 ==> lo == 0,
{
    let last_pair: i64 = (STEPS - 2) as i64;
    clamp(cell, 0, last_pair) as usize
}

/// Whether `samples` is a full table that starts at `start` and in which
/// every later sample is what `step` gave for its index and the sample
/// before it.
pub open spec fn accumulates<T, F: Fn(usize, T) -> T>(
    samples: Seq<T>,
    start: T,
    step: F,
) -> bool {
    &&& samples.len() == STEPS
    &&& samples[0] == start
    &&& forall|i: int|
        1 <= i < STEPS ==> call_ensures(step, (i as usize, samples[i - 1]), #[trigger] samples[i])
}

/// Whether `moved` is the table `local` anchored by `shift`: sample by
/// sample, what `shift` gave for the far end of `local` and the sample.
pub open spec fn anchors<T, F: Fn(T, T) -> T>(moved: Seq<T>, local: Seq<T>, shift: F) -> bool {
    &&& local.len() == STEPS
    &&& moved.len() == STEPS
    &&& forall|i: int|
        0 <= i < STEPS ==> call_ensures(shift, (local[STEPS - 1], local[i]), #[trigger] moved[i])
}

/// The far end of an anchored table. Where `shift` can give nothing but
/// `end` for the far end of `local` itself, a table that `shift` anchors
/// ends in `end`, and `end` is the upper sample of the pair that brackets a
/// position at or past the last sample.
pub proof fn lemma_anchored_table_ends_in_anchor<T, F: Fn(T, T) -> T>(
    local: Seq<T>,
    moved: Seq<T>,
    shift: F,
    end: T,
)
    requires
        anchors(moved, local, shift),
        forall|sample: T| #[trigger]
            call_ensures(shift, (local[STEPS - 1], local[STEPS - 1]), sample) ==> sample == end,
    ensures
        moved[STEPS - 1] == end,
        forall|cell: int| cell >= STEPS - 1 ==> moved[#[trigger] lower_index(cell) + 1] == end,
{
}

/// Two neighbouring samples of a lookup table and where they stand.
pub struct Bracket<T> {
    /// Index of `lower` in the table; `upper` stands at `index + 1`.
    pub index: usize,
    pub lower: T,
    pub upper: T,
}

/// The lookup table of a spiral segment: exactly `STEPS` samples, ordered
/// by arc length. A table is made whole and never changed afterwards.
pub struct Lookup<T> {
    samples: Vec<T>,
}

impl<T> View for Lookup<T> {
    type V = Seq<T>;

    closed spec fn view(&self) -> Seq<T> {
        self.samples@
    }
}

impl<T> Lookup<T> {
    #[verifier::type_invariant]
    spec fn well_formed(&self) -> bool {
        self.samples@.len() == STEPS
    }
}

impl<T: Copy> Lookup<T> {
    /// Builds a table by accumulation: the first sample is `start` itself,
    /// and sample `i` is `step(i, previous)`, where `previous` is sample
    /// `i - 1`.
    pub fn accumulate<F: Fn(usize, T) -> T>(start: T, step: F) -> (table: Self)
        requires
            forall|i: usize, previous: T| 1 <= i < STEPS ==> call_requires(step, (i, previous)),
        ensures
            accumulates(table@, start, step),
    {
        let mut samples: Vec<T> = Vec::with_capacity(STEPS);
        samples.push(start);
        let mut previous = start;
        let mut i: usize = 1;
        while i < STEPS
            invariant
                1 <= i <= STEPS,
                samples@.len() == i,
                samples@[0] == start,
                samples@[i - 1] == previous,
                forall|i: usize, previous: T| 1 <= i < STEPS ==> call_requires(step, (i, previous)),
                forall|j: int|
                    1 <= j < i ==> call_ensures(
                        step,
                        (j as usize, samples@[j - 1]),
                        #[trigger] samples@[j],
                    ),
            decreases STEPS - i,
        {
            let next = step(i, previous);
            samples.push(next);
            previous = next;
            i += 1;
        }
        Lookup { samples }
    }

    /// Anchors the table: sample `i` of the result is `shift(far, sample)`,
    /// where `far` is the last sample of this table and `sample` its
    /// sample `i`. This table stays as it is.
    pub fn anchored<F: Fn(T, T) -> T>(&self, shift: F) -> (moved: Self)
        requires
            forall|i: int|
                0 <= i < STEPS ==> call_requires(shift, (self@[STEPS - 1], #[trigger] self@[i])),
        ensures
            anchors(moved@, self@, shift),
    {
        proof {
            use_type_invariant(self);
        }
        let far = self.last();
        let mut samples: Vec<T> = Vec::with_capacity(STEPS);
        let mut i: usize = 0;
        while i < STEPS
            invariant
                i <= STEPS,
                self@.len() == STEPS,
                far == self@[STEPS - 1],
                samples@.len() == i,
                forall|j: int|
                    0 <= j < STEPS ==> call_requires(shift, (far, #[trigger] self@[j])),
                forall|j: int|
                    0 <= j < i ==> call_ensures(shift, (far, self@[j]), #[trigger] samples@[j]),
            decreases STEPS - i,
        {
            samples.push(shift(far, self.sample(i)));
            i += 1;
        }
        Lookup { samples }
    }

    /// The number of samples, which is `STEPS` for every table.
    pub fn len(&self) -> (n: usize)
        ensures
            n == STEPS,
            n == self@.len(),
    {
        proof {
            use_type_invariant(self);
        }
        self.samples.len()
    }

    /// The sample at index `i`.
    pub fn sample(&self, i: usize) -> (p: T)
        requires
            i < STEPS,
        ensures
            p == self@[i as int],
    {
        proof {
            use_type_invariant(self);
        }
        self.samples[i]
    }

    /// The sample at arc length zero.
    pub fn first(&self) -> (p: T)
        ensures
            p == self@[0],
    {
        self.sample(0)
    }

    /// The sample at the full arc length.
    pub fn last(&self) -> (p: T)
        ensures
            p == self@[STEPS - 1],
    {
        self.sample(STEPS - 1)
    }

    /// The pair of stored samples that brackets the table position whose
    /// integer part is `cell`. Every `cell` has such a pair: positions
    /// outside the table are answered from its first or last pair.
    pub fn bracket(&self, cell: i64) -> (b: Bracket<T>)
        ensures
            b.index == lower_index(cell as int),
            b.index + 1 < STEPS,
            b.lower == self@[b.index as int],
            b.upper == self@[b.index + 1],
            cell <= 0 ==> b.lower == self@[0],
            cell >= STEPS - 1 ==> b.upper == self@[STEPS - 1],
    {
        let index: usize = bracket_index(cell);
        Bracket { index, lower: self.sample(index), upper: self.sample(index + 1) }
    }
}

} // verus!
