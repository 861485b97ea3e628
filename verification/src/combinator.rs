//! Positions on an animation's timeline and the spans that the animation
//! combinators lay out on it.
use vstd::prelude::*;

use crate::duration::{Duration, MAX_NANOS};
use crate::span::{quotient_of, DurationQuotient, TimeBound, TimeSpan};

verus! {

/// Move the position forward by `by`.
pub fn forward(pos: &mut Duration, by: Duration)
    requires
        old(pos)@ + by@ <= MAX_NANOS,
    ensures
        final(pos)@ == old(pos)@ + by@,
{
    *pos = pos.add(by);
}

/// The position `pos` moved backward by `by`, stopping at zero.
pub open spec fn backwarded(pos: nat, by: nat) -> nat {
    if by <= pos { (pos - by) as nat } else { 0 }
}

/// Move the position backward by `by`, stopping at zero.
pub fn backward(pos: &mut Duration, by: Duration)
    ensures
        final(pos)@ == backwarded(old(pos)@, by@),
{
    *pos = pos.saturating_sub(by);
}

/// Set the position to `to`.
pub fn go(pos: &mut Duration, to: Duration)
    ensures
        *final(pos) == to,
{
    *pos = to;
}

/// Lay out a tween of length `duration` at the position: it spans from the
/// position (inclusive) to the position plus `duration` (exclusive), and the
/// position moves to its end.
pub fn tween(pos: &mut Duration, duration: Duration) -> (r: TimeSpan)
    requires
        old(pos)@ + duration@ <= MAX_NANOS,
    ensures
        r.min_bound() == TimeBound::Inclusive(*old(pos)),
        r.max_bound() matches TimeBound::Exclusive(end) && end@ == old(pos)@ + duration@,
        final(pos)@ == old(pos)@ + duration@,
{
    let start = *pos;
    let end = start.add(duration);
    *pos = end;
    match TimeSpan::try_from_range(start, end) {
        Ok(span) => span,
        Err(_) => {
            proof { assert(false); }
            TimeSpan::default()
        },
    }
}

/// The instant span `at..=at` of an event.
pub fn event_at(at: Duration) -> (r: TimeSpan)
    ensures
        r.min_bound() == TimeBound::Inclusive(at),
        r.max_bound() == TimeBound::Inclusive(at),
{
    match TimeSpan::try_from_range_inclusive(at, at) {
        Ok(span) => span,
        Err(_) => {
            proof { assert(false); }
            TimeSpan::default()
        },
    }
}

/// The instant span of an event at the position, which does not move.
pub fn event(pos: &Duration) -> (r: TimeSpan)
    ensures
        r.min_bound() == TimeBound::Inclusive(*pos),
        r.max_bound() == TimeBound::Inclusive(*pos),
{
    event_at(*pos)
}

/// The span of an event lasting `length` from the position (inclusive) to the
/// position plus `length` (exclusive). The position moves to the end of the
/// event.
pub fn event_for(pos: &mut Duration, length: Duration) -> (r: TimeSpan)
    requires
        old(pos)@ + length@ <= MAX_NANOS,
    ensures
        r.min_bound() == TimeBound::Inclusive(*old(pos)),
        r.max_bound() matches TimeBound::Exclusive(end) && end@ == old(pos)@ + length@,
        final(pos)@ == old(pos)@ + length@,
{
    tween(pos, length)
}

/// Bookkeeping for animations played in parallel: every branch starts at the
/// same position, and afterwards the position is the furthest that any branch
/// reached.
#[derive(Debug, Clone, Copy, PartialEq, Eq, Structural)]
pub struct ParallelBranches {
    /// The position every branch starts from.
    pub start: Duration,
    /// The furthest position reached so far.
    pub furthest: Duration,
}

impl ParallelBranches {
    /// Start branches at `start`.
    pub fn new(start: Duration) -> (r: ParallelBranches)
        ensures
            r.start == start,
            r.furthest == start,
    {
        ParallelBranches { start, furthest: start }
    }

    /// Record where a branch left the position, and put the position back at
    /// the start for the next branch.
    pub fn branch_done(&mut self, pos: &mut Duration)
        ensures
            final(self).start == old(self).start,
            final(self).furthest@ == if old(self).furthest@ < old(pos)@ {
                old(pos)@
            } else {
                old(self).furthest@
            },
            *final(pos) == old(self).start,
    {
        if self.furthest.lt(pos) {
            self.furthest = *pos;
        }
        *pos = self.start;
    }

    /// Record where a branch left the position, keeping the position where it
    /// is for the next branch.
    pub fn branch_reached(&mut self, pos: &Duration)
        ensures
            final(self).start == old(self).start,
            final(self).furthest@ == if old(self).furthest@ < pos@ {
                pos@
            } else {
                old(self).furthest@
            },
    {
        if self.furthest.lt(pos) {
            self.furthest = *pos;
        }
    }

    /// The position after all branches: the furthest reached.
    pub fn finish(&self, pos: &mut Duration)
        ensures
            *final(pos) == self.furthest,
    {
        *pos = self.furthest;
    }
}

/// The furthest of the positions `ends` that branches started at `start`
/// reached, never before `start`.
pub open spec fn furthest_of(start: nat, ends: Seq<nat>) -> nat
    decreases ends.len(),
{
    if ends.len() == 0 {
        start
    } else {
        let rest = furthest_of(start, ends.drop_last());
        if rest < ends.last() { ends.last() } else { rest }
    }
}

/// Moving backward by the amount just moved forward returns to where the
/// position was.
pub proof fn lemma_backward_undoes_forward(pos: nat, by: nat)
    ensures
        backwarded(pos + by, by) == pos,
{
}

/// Moving backward twice moves back by the sum, stopping at zero.
pub proof fn lemma_backward_twice(pos: nat, a: nat, b: nat)
    ensures
        backwarded(backwarded(pos, a), b) == backwarded(pos, a + b),
{
}

/// Parallel branches end at or after their start and at or after every
/// branch's end, and at the start or at one of the ends.
pub proof fn lemma_furthest_bounds(start: nat, ends: Seq<nat>)
    ensures
        start <= furthest_of(start, ends),
        forall|i: int| 0 <= i < ends.len() ==> ends[i] <= #[trigger] furthest_of(start, ends),
        furthest_of(start, ends) == start || exists|i: int| 0 <= i < ends.len() && ends[i] == furthest_of(start, ends),
    decreases ends.len(),
{
    if ends.len() > 0 {
        lemma_furthest_bounds(start, ends.drop_last());
        let rest = furthest_of(start, ends.drop_last());
        assert forall|i: int| 0 <= i < ends.len() implies ends[i] <= #[trigger] furthest_of(start, ends) by {
            if i < ends.len() - 1 {
                assert(ends.drop_last()[i] == ends[i]);
            }
        }
        if furthest_of(start, ends) != start && rest < ends.last() {
            assert(ends[ends.len() - 1] == furthest_of(start, ends));
        } else if furthest_of(start, ends) != start {
            let i = choose|i: int| 0 <= i < ends.drop_last().len() && ends.drop_last()[i] == rest;
            assert(ends[i] == furthest_of(start, ends));
        }
    }
}

/// Tweens laid out one after the other leave neither a gap nor an overlap:
/// the first spans from `a` to `b` and the second, starting where the first
/// left the position, from `b` to `c`; every time from `a` up to `c` lies in
/// exactly one of them, and none outside that range lies in either.
pub proof fn lemma_sequence_no_gap_no_overlap(a: Duration, b: Duration, c: Duration, t: nat)
    requires
        a@ <= b@ <= c@,
    ensures
        a@ <= t < c@ ==> (quotient_of(TimeBound::Inclusive(a), TimeBound::Exclusive(b), t) == DurationQuotient::Inside)
            != (quotient_of(TimeBound::Inclusive(b), TimeBound::Exclusive(c), t) == DurationQuotient::Inside),
        !(a@ <= t < c@) ==> quotient_of(TimeBound::Inclusive(a), TimeBound::Exclusive(b), t) != DurationQuotient::Inside
            && quotient_of(TimeBound::Inclusive(b), TimeBound::Exclusive(c), t) != DurationQuotient::Inside,
{
}

} // verus!
