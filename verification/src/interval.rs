//! Generic intervals: intervals measured purely by staff-position (letter)
//! distance, resolved by advancing a root natural a given number of steps
//! through the canonical cyclic order of the seven letters.

use vstd::prelude::*;

use crate::note::canonical_order;
use crate::note::Natural;

verus! {

/// Classification of a generic interval's size, mapped to step counts
/// 0 through 7. An octave advances a full cycle of seven letters, so it
/// lands on the same letter as a first.
#[derive(Copy, Clone, PartialEq, Eq, Structural, Debug)]
pub enum IntervalSpan {
    First,
    Second,
    Third,
    Fourth,
    Fifth,
    Sixth,
    Seventh,
    Octave,
}

impl IntervalSpan {
    /// The number of cyclic letter steps this span advances.
    pub open spec fn spec_step_count(self) -> int {
        match self {
            IntervalSpan::First => 0,
            IntervalSpan::Second => 1,
            IntervalSpan::Third => 2,
            IntervalSpan::Fourth => 3,
            IntervalSpan::Fifth => 4,
            IntervalSpan::Sixth => 5,
            IntervalSpan::Seventh => 6,
            IntervalSpan::Octave => 7,
        }
    }

    /// The number of cyclic letter steps this span advances.
    pub fn step_count(self) -> (n: i8)
        ensures
            n as int == self.spec_step_count(),
    {
        match self {
            IntervalSpan::First => 0,
            IntervalSpan::Second => 1,
            IntervalSpan::Third => 2,
            IntervalSpan::Fourth => 3,
            IntervalSpan::Fifth => 4,
            IntervalSpan::Sixth => 5,
            IntervalSpan::Seventh => 6,
            IntervalSpan::Octave => 7,
        }
    }
}

/// A pair of natural notes forming a generic interval: the root and the
/// second note reached from it by cyclic advance.
#[derive(Copy, Clone, PartialEq, Eq, Structural, Debug)]
pub struct GenericInterval {
    pub root: Natural,
    pub second: Natural,
}

/// The single error kind of the resolver: the requested step count
/// exceeds the octave maximum. It reports the offending step count and
/// the maximum allowed.
#[derive(Copy, Clone, PartialEq, Eq, Structural, Debug)]
pub struct InvalidSpanError {
    pub step_count: i8,
    pub max_step_count: i8,
}

/// The natural reached by advancing `steps` cyclic letter steps from
/// `root` in the canonical order (wrapping past G to A).
pub open spec fn spec_resolve(root: Natural, steps: int) -> Natural
    recommends
        0 <= steps,
{
    canonical_order()[(root.spec_position() + steps) % 7]
}

impl GenericInterval {
    pub const FIRST: i8 = 0;

    pub const SECOND: i8 = 1;

    pub const THIRD: i8 = 2;

    pub const FOURTH: i8 = 3;

    pub const FIFTH: i8 = 4;

    pub const SIXTH: i8 = 5;

    pub const SEVENTH: i8 = 6;

    /// The largest step count a generic interval admits; it lands back on
    /// the root's own letter.
    pub const OCTAVE: i8 = 7;

    /// Builds the generic interval with the given root and step count:
    /// the second note is the catalog entry `step_count` cyclic steps past
    /// the root. A step count above the octave maximum is a caller's
    /// programming error and is reported, never silently resolved.
    pub fn new(root: Natural, step_count: i8) -> (r: Result<GenericInterval, InvalidSpanError>)
        requires
            0 <= step_count,
        ensures
            step_count <= 7 ==> r == Ok::<GenericInterval, InvalidSpanError>(
                GenericInterval { root, second: spec_resolve(root, step_count as int) },
            ),
            step_count > 7 ==> r == Err::<GenericInterval, InvalidSpanError>(
                InvalidSpanError { step_count, max_step_count: 7 },
            ),
    {
        if step_count > Self::OCTAVE {
            return Err(InvalidSpanError { step_count, max_step_count: Self::OCTAVE });
        }
        let naturals = crate::note::all_naturals();
        let i: usize = root.position() as usize;
        let j: usize = (i + step_count as usize) % 7;
        let second = naturals[j];
        Ok(GenericInterval { root, second })
    }
}

/// Resolves a generic interval from a root natural and a span
/// classification. Total over the closed span enumeration: every span
/// maps to a step count within the octave maximum, so resolution always
/// succeeds and is a pure function of its inputs.
pub fn resolve_generic_interval(root: Natural, span: IntervalSpan) -> (r: GenericInterval)
    ensures
        r == (GenericInterval { root, second: spec_resolve(root, span.spec_step_count()) }),
{
    let step_count = span.step_count();
    match GenericInterval::new(root, step_count) {
        Ok(interval) => interval,
        Err(_) => GenericInterval { root, second: root },
    }
}

/// A first and an octave both resolve to the root itself, for every
/// natural root: advancing zero steps or a full seven-letter cycle lands
/// on the root's own letter, so the two spans collapse to the identical
/// interval value.
pub proof fn lemma_first_and_octave_identity(root: Natural)
    ensures
        spec_resolve(root, IntervalSpan::First.spec_step_count()) == root,
        spec_resolve(root, IntervalSpan::Octave.spec_step_count()) == root,
{
    crate::note::lemma_position_in_canonical_order(root);
}

/// Resolution is a pure function of its inputs: the resolver's contract
/// pins the result completely, so any two results it admits for the same
/// root and span are equal.
pub proof fn lemma_resolver_deterministic(
    root: Natural,
    span: IntervalSpan,
    r1: GenericInterval,
    r2: GenericInterval,
)
    requires
        r1 == (GenericInterval { root, second: spec_resolve(root, span.spec_step_count()) }),
        r2 == (GenericInterval { root, second: spec_resolve(root, span.spec_step_count()) }),
    ensures
        r1 == r2,
{
}

} // verus!
