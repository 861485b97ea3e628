//! Spans of time on an animation's timeline, bounded inclusively or
//! exclusively at each end.
use vstd::prelude::*;

use crate::duration::Duration;

verus! {

/// A bound of a span: the duration is itself part of the span (inclusive) or
/// is not (exclusive).
#[derive(Debug, Clone, Copy, PartialEq, Eq, Hash, Structural)]
pub enum TimeBound {
    /// The duration belongs to the span.
    Inclusive(Duration),
    /// The duration does not belong to the span.
    Exclusive(Duration),
}

impl TimeBound {
    /// The duration of the bound, whichever its kind.
    pub open spec fn dur(self) -> nat {
        match self {
            TimeBound::Inclusive(d) => d@,
            TimeBound::Exclusive(d) => d@,
        }
    }

    /// Whether the bound is exclusive.
    pub open spec fn is_exclusive(self) -> bool {
        self is Exclusive
    }

    /// The inner duration.
    pub fn duration(&self) -> (r: Duration)
        ensures
            r@ == self.dur(),
            match *self {
                TimeBound::Inclusive(d) => r == d,
                TimeBound::Exclusive(d) => r == d,
            },
    {
        match self {
            TimeBound::Inclusive(d) => *d,
            TimeBound::Exclusive(d) => *d,
        }
    }
}

impl Default for TimeBound {
    /// The inclusive bound at zero.
    fn default() -> (r: TimeBound)
        ensures
            r == TimeBound::Inclusive(Duration::spec_zero()),
    {
        TimeBound::Inclusive(Duration::zero())
    }
}

/// Where a duration lies against a span.
#[derive(Debug, Clone, Copy, PartialEq, Eq, Hash, Structural)]
pub enum DurationQuotient {
    /// Before the span's start.
    Before,
    /// Inside the span.
    Inside,
    /// After the span's end.
    After,
}

/// Why a pair of bounds makes no span.
#[derive(Debug, Clone, Copy, PartialEq, Eq, Structural)]
pub enum NewTimeSpanError {
    /// Both bounds are exclusive at the same duration: the span holds no time.
    NotTime {
        #[allow(missing_docs)]
        min: TimeBound,
        #[allow(missing_docs)]
        max: TimeBound,
    },
    /// The start lies after the end.
    MinGreaterThanMax {
        #[allow(missing_docs)]
        min: TimeBound,
        #[allow(missing_docs)]
        max: TimeBound,
    },
}

/// The error of creating a span, under its earlier name.
pub type NewTweenTimeSpanError = NewTimeSpanError;

/// Whether `min` and `max` bound a span that appears on a timeline: the start
/// does not lie after the end, and the two are not both exclusive at the same
/// duration.
pub open spec fn valid_bounds(min: TimeBound, max: TimeBound) -> bool {
    &&& min.dur() <= max.dur()
    &&& !(min.is_exclusive() && max.is_exclusive() && min.dur() == max.dur())
}

/// Where the time `t` (in nanoseconds) lies against the span from `min` to `max`.
pub open spec fn quotient_of(min: TimeBound, max: TimeBound, t: nat) -> DurationQuotient {
    let after_min = if min.is_exclusive() { t > min.dur() } else { t >= min.dur() };
    let before_max = if max.is_exclusive() { t < max.dur() } else { t <= max.dur() };
    if after_min && before_max {
        DurationQuotient::Inside
    } else if after_min {
        DurationQuotient::After
    } else {
        DurationQuotient::Before
    }
}

/// The range of time a tween works in.
#[derive(Debug, Clone, Copy, PartialEq, Eq, Hash, Structural)]
pub struct TimeSpan {
    min: TimeBound,
    max: TimeBound,
}

/// The span type under its earlier name.
pub type TweenTimeSpan = TimeSpan;

impl TimeSpan {
    #[verifier::type_invariant]
    closed spec fn bounds_valid(self) -> bool {
        valid_bounds(self.min, self.max)
    }

    /// The start bound.
    pub closed spec fn min_bound(self) -> TimeBound {
        self.min
    }

    /// The end bound.
    pub closed spec fn max_bound(self) -> TimeBound {
        self.max
    }

    /// A span from `min` to `max`, which must be valid bounds.
    pub(crate) fn new_unchecked(min: TimeBound, max: TimeBound) -> (r: TimeSpan)
        requires
            valid_bounds(min, max),
        ensures
            r.min_bound() == min,
            r.max_bound() == max,
    {
        TimeSpan { min, max }
    }

    /// A span from `min` to `max`. Fails with `NotTime` where both bounds are
    /// exclusive at the same duration, and else with `MinGreaterThanMax`
    /// where the start lies after the end.
    pub fn new(min: TimeBound, max: TimeBound) -> (r: Result<TimeSpan, NewTimeSpanError>)
        ensures
            valid_bounds(min, max) <==> r is Ok,
            r matches Ok(s) ==> (s.min_bound() == min && s.max_bound() == max),
            min.is_exclusive() && max.is_exclusive() && min.dur() == max.dur()
                ==> r == Err::<TimeSpan, NewTimeSpanError>(NewTimeSpanError::NotTime { min, max }),
            !(min.is_exclusive() && max.is_exclusive() && min.dur() == max.dur())
                && min.dur() > max.dur()
                ==> r == Err::<TimeSpan, NewTimeSpanError>(NewTimeSpanError::MinGreaterThanMax { min, max }),
    {
        let both_exclusive = match (min, max) {
            (TimeBound::Exclusive(_), TimeBound::Exclusive(_)) => true,
            _ => false,
        };
        let min_d = min.duration();
        let max_d = max.duration();
        if both_exclusive && min_d.eq(&max_d) {
            return Err(NewTimeSpanError::NotTime { min, max });
        } else if max_d.lt(&min_d) {
            return Err(NewTimeSpanError::MinGreaterThanMax { min, max });
        }
        Ok(Self::new_unchecked(min, max))
    }

    /// The length of the span: its end minus its start.
    pub fn length(&self) -> (r: Duration)
        ensures
            r@ == self.max_bound().dur() - self.min_bound().dur(),
    {
        proof { use_type_invariant(self); }
        self.max.duration().sub(self.min.duration())
    }

    /// Where `duration` lies against this span.
    pub fn quotient(&self, duration: Duration) -> (r: DurationQuotient)
        ensures
            r == quotient_of(self.min_bound(), self.max_bound(), duration@),
            duration@ < self.min_bound().dur() ==> r == DurationQuotient::Before,
            duration@ > self.max_bound().dur() ==> r == DurationQuotient::After,
            self.min_bound().dur() < duration@ < self.max_bound().dur() ==> r == DurationQuotient::Inside,
    {
        proof { use_type_invariant(self); }
        let after_min = match self.min {
            TimeBound::Inclusive(min) => min.le(&duration),
            TimeBound::Exclusive(min) => min.lt(&duration),
        };
        let before_max = match self.max {
            TimeBound::Inclusive(max) => duration.le(&max),
            TimeBound::Exclusive(max) => duration.lt(&max),
        };
        if after_min && before_max {
            DurationQuotient::Inside
        } else if after_min {
            DurationQuotient::After
        } else {
            DurationQuotient::Before
        }
    }

    /// The start bound.
    pub fn min(&self) -> (r: TimeBound)
        ensures
            r == self.min_bound(),
    {
        self.min
    }

    /// The end bound.
    pub fn max(&self) -> (r: TimeBound)
        ensures
            r == self.max_bound(),
    {
        self.max
    }

    /// The span of the half-open range `start..end`. Fails with
    /// `MinGreaterThanMax` where `start` lies after `end`.
    pub fn try_from_range(start: Duration, end: Duration) -> (r: Result<TimeSpan, NewTimeSpanError>)
        ensures
            start@ <= end@ ==> (r matches Ok(s) && s.min_bound() == TimeBound::Inclusive(start)
                && s.max_bound() == TimeBound::Exclusive(end)),
            start@ > end@ ==> r == Err::<TimeSpan, NewTimeSpanError>(
                NewTimeSpanError::MinGreaterThanMax { min: TimeBound::Inclusive(start), max: TimeBound::Exclusive(end) }),
    {
        TimeSpan::new(TimeBound::Inclusive(start), TimeBound::Exclusive(end))
    }

    /// The span of the closed range `start..=end`. Fails with
    /// `MinGreaterThanMax` where `start` lies after `end`.
    pub fn try_from_range_inclusive(start: Duration, end: Duration) -> (r: Result<TimeSpan, NewTimeSpanError>)
        ensures
            start@ <= end@ ==> (r matches Ok(s) && s.min_bound() == TimeBound::Inclusive(start)
                && s.max_bound() == TimeBound::Inclusive(end)),
            start@ > end@ ==> r == Err::<TimeSpan, NewTimeSpanError>(
                NewTimeSpanError::MinGreaterThanMax { min: TimeBound::Inclusive(start), max: TimeBound::Inclusive(end) }),
    {
        TimeSpan::new(TimeBound::Inclusive(start), TimeBound::Inclusive(end))
    }

    /// The span of the range `..end`: from zero inclusive to `end` exclusive.
    /// It never fails.
    pub fn try_from_range_to(end: Duration) -> (r: Result<TimeSpan, NewTimeSpanError>)
        ensures
            r matches Ok(s) && s.min_bound() == TimeBound::Inclusive(Duration::spec_zero())
                && s.max_bound() == TimeBound::Exclusive(end),
    {
        TimeSpan::new(TimeBound::Inclusive(Duration::zero()), TimeBound::Exclusive(end))
    }

    /// The span of the range `..=end`: from zero to `end`, both inclusive.
    /// It never fails.
    pub fn try_from_range_to_inclusive(end: Duration) -> (r: Result<TimeSpan, NewTimeSpanError>)
        ensures
            r matches Ok(s) && s.min_bound() == TimeBound::Inclusive(Duration::spec_zero())
                && s.max_bound() == TimeBound::Inclusive(end),
    {
        TimeSpan::new(TimeBound::Inclusive(Duration::zero()), TimeBound::Inclusive(end))
    }
}

impl Default for TimeSpan {
    /// The empty span at zero: from zero inclusive to zero exclusive.
    fn default() -> (r: TimeSpan)
        ensures
            r.min_bound() == TimeBound::Inclusive(Duration::spec_zero()),
            r.max_bound() == TimeBound::Exclusive(Duration::spec_zero()),
    {
        TimeSpan::new_unchecked(TimeBound::Inclusive(Duration::zero()), TimeBound::Exclusive(Duration::zero()))
    }
}

/// The order of the quotients along the timeline.
pub open spec fn quotient_rank(q: DurationQuotient) -> int {
    match q {
        DurationQuotient::Before => 0,
        DurationQuotient::Inside => 1,
        DurationQuotient::After => 2,
    }
}

/// Later times never lie earlier against a span: as time grows, a duration
/// goes from before the span, through it, to after it, and never back.
pub proof fn lemma_quotient_monotone(min: TimeBound, max: TimeBound, t1: nat, t2: nat)
    requires
        valid_bounds(min, max),
        t1 <= t2,
    ensures
        quotient_rank(quotient_of(min, max, t1)) <= quotient_rank(quotient_of(min, max, t2)),
{
}

/// The ends of a span lie as their bounds say: an exclusive start is before
/// the span and an exclusive end after it; an inclusive start or end is
/// inside it unless the span holds that single instant only from its other,
/// exclusive side.
pub proof fn lemma_bounds_placement(min: TimeBound, max: TimeBound)
    requires
        valid_bounds(min, max),
    ensures
        min.is_exclusive() ==> quotient_of(min, max, min.dur()) == DurationQuotient::Before,
        max.is_exclusive() ==> quotient_of(min, max, max.dur()) == DurationQuotient::After,
        !min.is_exclusive() && (!max.is_exclusive() || min.dur() < max.dur())
            ==> quotient_of(min, max, min.dur()) == DurationQuotient::Inside,
        !max.is_exclusive() && (!min.is_exclusive() || min.dur() < max.dur())
            ==> quotient_of(min, max, max.dur()) == DurationQuotient::Inside,
{
}

/// A time lies against a span as it compares with the span's ends: earlier
/// than the start it lies before the span, later than the end after it, and
/// strictly between the two ends inside it, whatever the bounds' kinds.
pub proof fn lemma_quotient_by_ends(min: TimeBound, max: TimeBound, t: nat)
    requires
        valid_bounds(min, max),
    ensures
        t < min.dur() ==> quotient_of(min, max, t) == DurationQuotient::Before,
        t > max.dur() ==> quotient_of(min, max, t) == DurationQuotient::After,
        min.dur() < t < max.dur() ==> quotient_of(min, max, t) == DurationQuotient::Inside,
{
}

} // verus!
