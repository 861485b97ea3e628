//! Repeat settings and playback direction of an animation.
use vstd::prelude::*;

verus! {

/// How many times an animation repeats.
#[derive(Debug, Clone, Copy, PartialEq, Eq, Hash, Structural)]
pub enum Repeat {
    /// Repeat forever without counting.
    Infinitely,
    /// Repeat forever and count the repeats.
    InfinitelyCounted {
        #[allow(missing_docs)]
        times_repeated: usize,
    },
    /// Repeat `times` times.
    Times {
        #[allow(missing_docs)]
        times: usize,
        #[allow(missing_docs)]
        times_repeated: usize,
    },
}

/// Whether a repeat may still repeat once more: only a `Times` whose count
/// has reached its limit may not.
pub open spec fn can_advance(r: Repeat) -> bool {
    match r {
        Repeat::Times { times, times_repeated } => times_repeated < times,
        _ => true,
    }
}

/// The repeat after one more repeat was counted.
pub open spec fn advanced(r: Repeat) -> Repeat {
    match r {
        Repeat::Infinitely => Repeat::Infinitely,
        Repeat::InfinitelyCounted { times_repeated } => Repeat::InfinitelyCounted {
            times_repeated: (times_repeated + 1) as usize,
        },
        Repeat::Times { times, times_repeated } => if times_repeated < times {
            Repeat::Times { times, times_repeated: (times_repeated + 1) as usize }
        } else {
            r
        },
    }
}

/// Whether the counter of `r` has room for one more repeat.
pub open spec fn counter_fits(r: Repeat) -> bool {
    match r {
        Repeat::InfinitelyCounted { times_repeated } => times_repeated < usize::MAX,
        _ => true,
    }
}

impl Repeat {
    /// Repeat forever.
    pub fn infinitely() -> (r: Repeat)
        ensures
            r == Repeat::Infinitely,
    {
        Repeat::Infinitely
    }

    /// Repeat forever, counting from zero.
    pub fn infinitely_counted() -> (r: Repeat)
        ensures
            r == (Repeat::InfinitelyCounted { times_repeated: 0 }),
    {
        Repeat::InfinitelyCounted { times_repeated: 0 }
    }

    /// Repeat `times` times, counting from zero.
    pub fn times(times: usize) -> (r: Repeat)
        ensures
            r == (Repeat::Times { times, times_repeated: 0 }),
    {
        Repeat::Times { times, times_repeated: 0 }
    }

    /// Count one more repeat. Returns `false`, and counts nothing, where a
    /// `Times` has already repeated `times` times.
    pub fn try_advance_counter(&mut self) -> (r: bool)
        requires
            counter_fits(*old(self)),
        ensures
            r == can_advance(*old(self)),
            *final(self) == advanced(*old(self)),
    {
        match self {
            Repeat::Infinitely => {},
            Repeat::InfinitelyCounted { times_repeated } => {
                *times_repeated = *times_repeated + 1;
            },
            Repeat::Times { times, times_repeated } => {
                if *times_repeated >= *times {
                    return false;
                }
                *times_repeated = *times_repeated + 1;
            },
        }
        true
    }
}

/// What happens when a repeating animation reaches an end.
#[derive(Debug, Clone, Copy, PartialEq, Eq, Hash, Structural)]
pub enum RepeatStyle {
    /// Jump back to the other end and go on in the same direction.
    WrapAround,
    /// Turn around and go back the way it came.
    PingPong,
}

impl Default for RepeatStyle {
    fn default() -> (r: RepeatStyle)
        ensures
            r == RepeatStyle::WrapAround,
    {
        RepeatStyle::WrapAround
    }
}

/// The direction in which time runs.
#[derive(Debug, Clone, Copy, PartialEq, Eq, Hash, Structural)]
pub enum AnimationDirection {
    /// Time increases.
    Forward,
    /// Time decreases.
    Backward,
}

impl Default for AnimationDirection {
    fn default() -> (r: AnimationDirection)
        ensures
            r == AnimationDirection::Forward,
    {
        AnimationDirection::Forward
    }
}

/// The opposite direction.
pub open spec fn flipped(d: AnimationDirection) -> AnimationDirection {
    match d {
        AnimationDirection::Forward => AnimationDirection::Backward,
        AnimationDirection::Backward => AnimationDirection::Forward,
    }
}

/// A `Times` repeat never counts past its limit: counting keeps
/// `times_repeated <= times`, and once the limit is reached the counter stays.
pub proof fn lemma_times_never_exceeds(r: Repeat)
    requires
        r matches Repeat::Times { times, times_repeated } && times_repeated <= times,
    ensures
        advanced(r) matches Repeat::Times { times, times_repeated } && times_repeated <= times,
        !can_advance(r) ==> advanced(r) == r,
{
}

} // verus!
