//! What a tick of a tween timer decides besides its arithmetic: whether it
//! repeats, by how much its repeat counter moves, which direction it runs in
//! afterwards, and whether the timer is completed.
use vstd::prelude::*;

use bevy_time_runner::Repeat as RunnerRepeat;

use crate::builder::{with_repeat, with_repeat_style};
use crate::duration::Duration;
use crate::repeat::{flipped, AnimationDirection, RepeatStyle};
use crate::span::{TimeBound, TimeSpan};

verus! {

/// The direction of a ping-pong timer that started in `start` and turned
/// `repeats` times: unchanged after an even number of turns, reversed after an
/// odd one.
pub open spec fn turned(start: AnimationDirection, repeats: int) -> AnimationDirection {
    if repeats % 2 == 0 { start } else { flipped(start) }
}

/// The direction after a ping-pong timer that ran forward turned `repeats`
/// times.
pub fn triangle_wave_direction(repeats: i32) -> (r: AnimationDirection)
    ensures
        r == turned(AnimationDirection::Forward, repeats as int),
{
    if repeats % 2 == 0 {
        AnimationDirection::Forward
    } else {
        AnimationDirection::Backward
    }
}

/// The direction after a ping-pong timer that ran backward turned `repeats`
/// times.
pub fn backward_triangle_wave_direction(repeats: i32) -> (r: AnimationDirection)
    ensures
        r == turned(AnimationDirection::Backward, repeats as int),
{
    if repeats % 2 == 0 {
        AnimationDirection::Backward
    } else {
        AnimationDirection::Forward
    }
}

/// Timers that started in opposite directions and turned equally often run
/// in opposite directions, and two more turns change nothing.
pub proof fn lemma_turns(repeats: int)
    ensures
        turned(AnimationDirection::Forward, repeats) == flipped(turned(AnimationDirection::Backward, repeats)),
        turned(AnimationDirection::Forward, repeats + 2) == turned(AnimationDirection::Forward, repeats),
{
}

/// How often a tween timer repeats, with its counters.
#[derive(Debug, Clone, Copy, PartialEq, Eq, Hash, Structural)]
pub enum TimerRepeat {
    /// Repeat forever.
    Infinitely,
    /// Repeat forever, counting the repeats.
    InfinitelyCounted {
        /// The repeats so far.
        times_repeated: i32,
    },
    /// Repeat `times` times.
    Times {
        /// The repeats allowed.
        times: i32,
        /// The repeats so far.
        times_repeated: i32,
    },
}

/// Whether a repeat has no repeats left: only a counted-down one can run out.
pub open spec fn exhausted_spec(r: TimerRepeat) -> bool {
    match r {
        TimerRepeat::Times { times, times_repeated } => times_repeated >= times,
        _ => false,
    }
}

/// The repeat after its counter is moved by `by`, and by how much it moved:
/// an infinite repeat moves by `by` (and counts it, if it counts); a
/// counted-down one with repeats left moves by `by`, but at most by the
/// repeats left, and one with none left does not move.
pub open spec fn advance_spec(r: TimerRepeat, by: i32) -> (TimerRepeat, int) {
    match r {
        TimerRepeat::Infinitely => (r, by as int),
        TimerRepeat::InfinitelyCounted { times_repeated } => (
            TimerRepeat::InfinitelyCounted { times_repeated: (times_repeated + by) as i32 },
            by as int,
        ),
        TimerRepeat::Times { times, times_repeated } => {
            let left = times - times_repeated;
            if left == 0 {
                (r, 0)
            } else {
                let moved = if by < left { by as int } else { left };
                (TimerRepeat::Times { times, times_repeated: (times_repeated + moved) as i32 }, moved)
            }
        },
    }
}

/// Whether moving the counter of `r` by `by` stays within `i32`.
pub open spec fn advance_fits(r: TimerRepeat, by: i32) -> bool {
    match r {
        TimerRepeat::Infinitely => true,
        TimerRepeat::InfinitelyCounted { times_repeated } => i32::MIN <= times_repeated + by <= i32::MAX,
        TimerRepeat::Times { times, times_repeated } => {
            let left = times - times_repeated;
            &&& i32::MIN <= left <= i32::MAX
            &&& left != 0 ==> i32::MIN <= times_repeated + (if by < left { by as int } else { left }) <= i32::MAX
        },
    }
}

/// Move the counter of `repeat` by `by` with
/// `bevy_time_runner::Repeat::advance_counter_by`, which returns how much it
/// moved. Claimed of it, as its source shows: the result of [`advance_spec`],
/// where the sums stay within `i32`.
#[verifier::external_body]
fn advance_counter_by(repeat: TimerRepeat, by: i32) -> (r: (TimerRepeat, i32))
    requires
        advance_fits(repeat, by),
    ensures
        r.0 == advance_spec(repeat, by).0,
        r.1 == advance_spec(repeat, by).1,
{
    let mut outside = match repeat {
        TimerRepeat::Infinitely => RunnerRepeat::Infinitely,
        TimerRepeat::InfinitelyCounted { times_repeated } => RunnerRepeat::InfinitelyCounted { times_repeated },
        TimerRepeat::Times { times, times_repeated } => RunnerRepeat::Times { times, times_repeated },
    };
    let moved = outside.advance_counter_by(by);
    let back = match outside {
        RunnerRepeat::Infinitely => TimerRepeat::Infinitely,
        RunnerRepeat::InfinitelyCounted { times_repeated } => TimerRepeat::InfinitelyCounted { times_repeated },
        RunnerRepeat::Times { times, times_repeated } => TimerRepeat::Times { times, times_repeated },
    };
    (back, moved)
}

/// Whether `repeat` has no repeats left, with
/// `bevy_time_runner::Repeat::exhausted`. Claimed of it, as its source shows:
/// [`exhausted_spec`].
#[verifier::external_body]
fn repeat_exhausted(repeat: TimerRepeat) -> (r: bool)
    ensures
        r == exhausted_spec(repeat),
{
    let outside = match repeat {
        TimerRepeat::Infinitely => RunnerRepeat::Infinitely,
        TimerRepeat::InfinitelyCounted { times_repeated } => RunnerRepeat::InfinitelyCounted { times_repeated },
        TimerRepeat::Times { times, times_repeated } => RunnerRepeat::Times { times, times_repeated },
    };
    outside.exhausted()
}

impl TimerRepeat {
    /// Repeat forever.
    pub fn infinitely() -> (r: TimerRepeat)
        ensures
            r == TimerRepeat::Infinitely,
    {
        TimerRepeat::Infinitely
    }

    /// Repeat forever, counting the repeats from zero.
    pub fn infinitely_counted() -> (r: TimerRepeat)
        ensures
            r == (TimerRepeat::InfinitelyCounted { times_repeated: 0 }),
    {
        TimerRepeat::InfinitelyCounted { times_repeated: 0 }
    }

    /// Repeat `times` times, none used yet.
    pub fn times(times: i32) -> (r: TimerRepeat)
        ensures
            r == (TimerRepeat::Times { times, times_repeated: 0 }),
    {
        TimerRepeat::Times { times, times_repeated: 0 }
    }

    /// Whether no repeats are left: see [`exhausted_spec`].
    pub fn exhausted(&self) -> (r: bool)
        ensures
            r == exhausted_spec(*self),
    {
        repeat_exhausted(*self)
    }

    /// Move the counter by `by` and return how much it moved: see
    /// [`advance_spec`].
    pub fn advance_counter_by(&mut self, by: i32) -> (r: i32)
        requires
            advance_fits(*old(self), by),
        ensures
            *final(self) == advance_spec(*old(self), by).0,
            r == advance_spec(*old(self), by).1,
    {
        let (moved_repeat, moved) = advance_counter_by(*self, by);
        *self = moved_repeat;
        moved
    }
}

/// Whether a timer with the repeat `repeat` is completed, given whether it
/// stands at the end it runs towards (`at_edge`): it must stand there, and
/// have no repeats left where it repeats.
pub fn timer_completed(repeat: Option<(TimerRepeat, RepeatStyle)>, at_edge: bool) -> (r: bool)
    ensures
        r == match repeat {
            Some((rep, _)) => exhausted_spec(rep) && at_edge,
            None => at_edge,
        },
{
    match repeat {
        Some((rep, _)) => rep.exhausted() && at_edge,
        None => at_edge,
    }
}

/// The whole periods a tick went past, counted in the timer's direction.
pub open spec fn signed_count(direction: AnimationDirection, repeat_count: i32) -> i32 {
    match direction {
        AnimationDirection::Forward => repeat_count,
        AnimationDirection::Backward => (-repeat_count) as i32,
    }
}

/// Whether a tick that went `repeat_count` whole periods past the start can
/// move the counter of `repeat` without leaving `i32`: where the timer
/// repeats and the count is not zero, a backward timer's count can be
/// negated, and the counter moves within `i32`.
pub open spec fn tick_repeat_fits(
    direction: AnimationDirection,
    repeat: Option<(TimerRepeat, RepeatStyle)>,
    repeat_count: i32,
) -> bool {
    match repeat {
        Some((rep, _)) => repeat_count != 0 ==> {
            &&& direction == AnimationDirection::Backward ==> repeat_count != i32::MIN
            &&& advance_fits(rep, signed_count(direction, repeat_count))
        },
        None => true,
    }
}

/// Whether [`tick_repeat`] can be called: see [`tick_repeat_fits`].
pub fn can_tick_repeat(
    direction: AnimationDirection,
    repeat: &Option<(TimerRepeat, RepeatStyle)>,
    repeat_count: i32,
) -> (r: bool)
    ensures
        r == tick_repeat_fits(direction, *repeat, repeat_count),
{
    let by: i64 = match direction {
        AnimationDirection::Forward => repeat_count as i64,
        AnimationDirection::Backward => -(repeat_count as i64),
    };
    match *repeat {
        None => true,
        Some((rep, _)) => {
            if repeat_count == 0 {
                return true;
            }
            if direction == AnimationDirection::Backward && repeat_count == i32::MIN {
                return false;
            }
            match rep {
                TimerRepeat::Infinitely => true,
                TimerRepeat::InfinitelyCounted { times_repeated } => {
                    let sum: i64 = times_repeated as i64 + by;
                    i32::MIN as i64 <= sum && sum <= i32::MAX as i64
                },
                TimerRepeat::Times { times, times_repeated } => {
                    let left: i64 = times as i64 - times_repeated as i64;
                    if left < i32::MIN as i64 || left > i32::MAX as i64 {
                        return false;
                    }
                    if left == 0 {
                        return true;
                    }
                    let moved: i64 = if by < left { by } else { left };
                    let sum: i64 = times_repeated as i64 + moved;
                    i32::MIN as i64 <= sum && sum <= i32::MAX as i64
                },
            }
        },
    }
}

/// The repeat style with which a tick that took a timer running in
/// `direction` `repeat_count` whole periods past its start (negative below
/// it) repeats, if it does: where the timer repeats and the count is not
/// zero, its counter moves by the count, taken in the timer's direction, and
/// the tick repeats if the counter moved. The counter is stored back in
/// `repeat`; otherwise `repeat` is unchanged and the tick does not repeat.
pub fn tick_repeat(
    direction: AnimationDirection,
    repeat: &mut Option<(TimerRepeat, RepeatStyle)>,
    repeat_count: i32,
) -> (r: Option<RepeatStyle>)
    requires
        tick_repeat_fits(direction, *old(repeat), repeat_count),
    ensures
        match *old(repeat) {
            Some((rep, style)) => if repeat_count != 0 {
                let (moved_rep, moved) = advance_spec(rep, signed_count(direction, repeat_count));
                &&& *final(repeat) == Some((moved_rep, style))
                &&& r == if moved != 0 { Some(style) } else { None::<RepeatStyle> }
            } else {
                *final(repeat) == *old(repeat) && r is None
            },
            None => *final(repeat) == *old(repeat) && r is None,
        },
{
    match *repeat {
        Some((rep, style)) => {
            if repeat_count == 0 {
                return None;
            }
            let by = match direction {
                AnimationDirection::Forward => repeat_count,
                AnimationDirection::Backward => -repeat_count,
            };
            let (moved_rep, moved) = advance_counter_by(rep, by);
            *repeat = Some((moved_rep, style));
            if moved != 0 {
                Some(style)
            } else {
                None
            }
        },
        None => None,
    }
}

/// The direction of a timer after a tick that went `repeat_count` whole
/// periods past its start and repeated with `repeated`: a ping-pong repeat
/// turns it once per period, anything else leaves it.
pub fn direction_after_tick(
    direction: AnimationDirection,
    repeated: Option<RepeatStyle>,
    repeat_count: i32,
) -> (r: AnimationDirection)
    ensures
        r == if repeated == Some(RepeatStyle::PingPong) {
            turned(direction, repeat_count as int)
        } else {
            direction
        },
{
    match repeated {
        Some(RepeatStyle::PingPong) => match direction {
            AnimationDirection::Forward => triangle_wave_direction(repeat_count),
            AnimationDirection::Backward => backward_triangle_wave_direction(repeat_count),
        },
        _ => direction,
    }
}

/// Once a counted-down repeat has used all its repeats, moving its counter
/// forward changes nothing and reports no move: the timer no longer repeats.
pub proof fn lemma_exhausted_never_repeats(times: i32, by: i32)
    requires
        by >= 0,
    ensures
        advance_spec(TimerRepeat::Times { times, times_repeated: times }, by)
            == (TimerRepeat::Times { times, times_repeated: times }, 0int),
{
}

/// Moving the counter of a counted-down repeat forward never takes it past
/// its limit, and moves it by the repeats left at most.
pub proof fn lemma_counter_stays_within_times(times: i32, times_repeated: i32, by: i32)
    requires
        0 <= times_repeated <= times,
        by >= 0,
    ensures
        advance_spec(TimerRepeat::Times { times, times_repeated }, by).0 matches TimerRepeat::Times {
            times: t,
            times_repeated: n,
        } && t == times && times_repeated <= n <= times,
        0 <= advance_spec(TimerRepeat::Times { times, times_repeated }, by).1 <= times - times_repeated,
{
}

/// The settings of a tween timer: all of it but its elapsed time.
#[derive(Debug, Clone, Copy)]
pub struct TimerSettings {
    /// Whether ticking leaves the timer unchanged.
    pub paused: bool,
    /// The timer's length.
    pub length: Duration,
    /// The direction in which time runs.
    pub direction: AnimationDirection,
    /// How much time passes on the timer per second of real time.
    pub speed_scale: Duration,
    /// How often and how to repeat, if at all.
    pub repeat: Option<(TimerRepeat, RepeatStyle)>,
}

impl Default for TimerSettings {
    /// A running, forward, non-repeating timer of no length, at normal speed.
    fn default() -> (r: TimerSettings)
        ensures
            !r.paused,
            r.length@ == 0,
            r.direction == AnimationDirection::Forward,
            r.speed_scale@ == 1_000_000_000,
            r.repeat is None,
    {
        TimerSettings {
            paused: false,
            length: Duration::zero(),
            direction: AnimationDirection::Forward,
            speed_scale: Duration::from_secs(1),
            repeat: None,
        }
    }
}

impl TimerSettings {
    /// The default timer with length `length`.
    pub fn new(length: Duration) -> (r: TimerSettings)
        ensures
            !r.paused,
            r.length == length,
            r.direction == AnimationDirection::Forward,
            r.speed_scale@ == 1_000_000_000,
            r.repeat is None,
    {
        TimerSettings { length, ..TimerSettings::default() }
    }

    /// These settings, paused or not.
    pub fn with_paused(self, paused: bool) -> (r: TimerSettings)
        ensures
            r == (TimerSettings { paused, ..self }),
    {
        TimerSettings { paused, ..self }
    }

    /// These settings, running in `direction`.
    pub fn with_direction(self, direction: AnimationDirection) -> (r: TimerSettings)
        ensures
            r == (TimerSettings { direction, ..self }),
    {
        TimerSettings { direction, ..self }
    }

    /// These settings, repeating as `repeat` says, in the repeat style chosen
    /// so far, else wrapping around.
    pub fn with_repeat(self, repeat: TimerRepeat) -> (r: TimerSettings)
        ensures
            r == (TimerSettings { repeat: with_repeat(self.repeat, repeat), ..self }),
    {
        let repeat = match self.repeat {
            Some((_, style)) => Some((repeat, style)),
            None => Some((repeat, RepeatStyle::WrapAround)),
        };
        TimerSettings { repeat, ..self }
    }

    /// These settings, repeating in `style` as often as chosen so far, else
    /// forever.
    pub fn with_repeat_style(self, style: RepeatStyle) -> (r: TimerSettings)
        ensures
            r == (TimerSettings { repeat: with_repeat_style(self.repeat, style), ..self }),
    {
        let repeat = match self.repeat {
            Some((repeat, _)) => Some((repeat, style)),
            None => Some((TimerRepeat::infinitely(), style)),
        };
        TimerSettings { repeat, ..self }
    }

    /// These settings, not repeating.
    pub fn without_repeat(self) -> (r: TimerSettings)
        ensures
            r == (TimerSettings { repeat: None, ..self }),
    {
        TimerSettings { repeat: None, ..self }
    }

    /// These settings with the repeat style reset to wrapping around, where
    /// the timer repeats.
    pub fn without_repeat_style(self) -> (r: TimerSettings)
        ensures
            r == (TimerSettings {
                repeat: match self.repeat {
                    Some((repeat, _)) => Some((repeat, RepeatStyle::WrapAround)),
                    None => None,
                },
                ..self
            }),
    {
        let repeat = match self.repeat {
            Some((repeat, _)) => Some((repeat, RepeatStyle::WrapAround)),
            None => None,
        };
        TimerSettings { repeat, ..self }
    }

    /// The span of a tween that fills the whole timer: from zero to its
    /// length, the length excluded.
    pub fn tween_here_span(&self) -> (r: TimeSpan)
        ensures
            r.min_bound() == TimeBound::Inclusive(Duration::spec_zero()),
            r.max_bound() == TimeBound::Exclusive(self.length),
    {
        match TimeSpan::try_from_range_to(self.length) {
            Ok(span) => span,
            Err(_) => {
                proof {
                    assert(false);
                }
                TimeSpan::default()
            },
        }
    }
}

} // verus!
