//! Settings gathered by the animation builders before an animation is
//! spawned, and the offset that the tween builder lays tweens out at.
use vstd::prelude::*;

use crate::duration::{Duration, MAX_NANOS};
use crate::repeat::{AnimationDirection, RepeatStyle};
use crate::timer::TimerRepeat;
use crate::span::{TimeBound, TimeSpan};

verus! {

/// The settings of the time runner that plays an animation, as far as the
/// builders set them.
#[derive(Debug, Clone, Copy)]
pub struct TimeRunnerSettings {
    /// Whether the runner is paused.
    pub paused: bool,
    /// How many times and how to repeat, if at all.
    pub repeat: Option<(TimerRepeat, RepeatStyle)>,
    /// The direction in which time runs.
    pub direction: AnimationDirection,
    /// The length of the animation.
    pub length: Duration,
}

impl TimeRunnerSettings {
    /// A running, forward, non-repeating runner of no length.
    pub fn new() -> (r: TimeRunnerSettings)
        ensures
            !r.paused,
            r.repeat is None,
            r.direction == AnimationDirection::Forward,
            r.length == Duration::spec_zero(),
    {
        TimeRunnerSettings {
            paused: false,
            repeat: None,
            direction: AnimationDirection::Forward,
            length: Duration::zero(),
        }
    }
}

/// The repeat setting after choosing `repeat`: the style already chosen is
/// kept, else it wraps around.
pub open spec fn with_repeat(current: Option<(TimerRepeat, RepeatStyle)>, repeat: TimerRepeat) -> Option<(TimerRepeat, RepeatStyle)> {
    match current {
        Some((_, style)) => Some((repeat, style)),
        None => Some((repeat, RepeatStyle::WrapAround)),
    }
}

/// The repeat setting after choosing `style`: the repeat already chosen is
/// kept, else it repeats forever.
pub open spec fn with_repeat_style(current: Option<(TimerRepeat, RepeatStyle)>, style: RepeatStyle) -> Option<(TimerRepeat, RepeatStyle)> {
    match current {
        Some((repeat, _)) => Some((repeat, style)),
        None => Some((TimerRepeat::Infinitely, style)),
    }
}

/// The runner settings in effect: the chosen ones, else the defaults.
pub open spec fn runner_or_default(r: Option<TimeRunnerSettings>) -> TimeRunnerSettings {
    match r {
        Some(s) => s,
        None => TimeRunnerSettings {
            paused: false,
            repeat: None,
            direction: AnimationDirection::Forward,
            length: Duration::spec_zero(),
        },
    }
}

/// The settings of an animation being built: its time runner, if any setting
/// was chosen, a length that overrides the one of the animation's content,
/// and whether the runner is skipped.
#[derive(Debug, Clone, Copy)]
pub struct AnimationBuilder {
    /// The runner settings chosen so far, if any.
    pub time_runner: Option<TimeRunnerSettings>,
    /// A length chosen in place of the content's.
    pub custom_length: Option<Duration>,
    /// Whether the runner is skipped.
    pub skipped: bool,
}

impl AnimationBuilder {
    /// No setting chosen.
    pub fn new() -> (r: AnimationBuilder)
        ensures
            r.time_runner is None,
            r.custom_length is None,
            !r.skipped,
    {
        AnimationBuilder { time_runner: None, custom_length: None, skipped: false }
    }

    /// The runner settings chosen so far, if any.
    pub fn time_runner(&self) -> (r: &Option<TimeRunnerSettings>)
        ensures
            *r == self.time_runner,
    {
        &self.time_runner
    }

    /// The runner settings, starting from the defaults if none was chosen.
    fn time_runner_or_default(&self) -> (r: TimeRunnerSettings)
        ensures
            r == runner_or_default(self.time_runner),
    {
        match self.time_runner {
            Some(r) => r,
            None => TimeRunnerSettings::new(),
        }
    }

    /// Repeat as `repeat` says, keeping the repeat style chosen so far.
    pub fn repeat(self, repeat: TimerRepeat) -> (r: AnimationBuilder)
        ensures
            r == (AnimationBuilder {
                time_runner: Some(TimeRunnerSettings {
                    repeat: with_repeat(runner_or_default(self.time_runner).repeat, repeat),
                    ..runner_or_default(self.time_runner)
                }),
                ..self
            }),
    {
        let mut b = self;
        let mut runner = b.time_runner_or_default();
        runner.repeat = match runner.repeat {
            Some((_, style)) => Some((repeat, style)),
            None => Some((repeat, RepeatStyle::WrapAround)),
        };
        b.time_runner = Some(runner);
        b
    }

    /// Repeat in `repeat_style`, keeping the repeat chosen so far, else
    /// repeating forever.
    pub fn repeat_style(self, repeat_style: RepeatStyle) -> (r: AnimationBuilder)
        ensures
            r == (AnimationBuilder {
                time_runner: Some(TimeRunnerSettings {
                    repeat: with_repeat_style(runner_or_default(self.time_runner).repeat, repeat_style),
                    ..runner_or_default(self.time_runner)
                }),
                ..self
            }),
    {
        let mut b = self;
        let mut runner = b.time_runner_or_default();
        runner.repeat = match runner.repeat {
            Some((repeat, _)) => Some((repeat, repeat_style)),
            None => Some((TimerRepeat::Infinitely, repeat_style)),
        };
        b.time_runner = Some(runner);
        b
    }

    /// Set whether the runner is paused.
    pub fn paused(self, paused: bool) -> (r: AnimationBuilder)
        ensures
            r == (AnimationBuilder {
                time_runner: Some(TimeRunnerSettings { paused, ..runner_or_default(self.time_runner) }),
                ..self
            }),
    {
        let mut b = self;
        let mut runner = b.time_runner_or_default();
        runner.paused = paused;
        b.time_runner = Some(runner);
        b
    }

    /// Set whether the runner is skipped.
    pub fn skipped(self, skipped: bool) -> (r: AnimationBuilder)
        ensures
            r == (AnimationBuilder { skipped, ..self }),
    {
        let mut b = self;
        b.skipped = skipped;
        b
    }

    /// Pause and skip the runner, or neither.
    pub fn disabled(self, disabled: bool) -> (r: AnimationBuilder)
        ensures
            r == (AnimationBuilder {
                time_runner: Some(TimeRunnerSettings { paused: disabled, ..runner_or_default(self.time_runner) }),
                skipped: disabled,
                ..self
            }),
    {
        self.paused(disabled).skipped(disabled)
    }

    /// Use `duration` as the length in place of the content's.
    pub fn length(self, duration: Duration) -> (r: AnimationBuilder)
        ensures
            r == (AnimationBuilder { custom_length: Some(duration), ..self }),
    {
        let mut b = self;
        b.custom_length = Some(duration);
        b
    }

    /// Set the direction in which time runs.
    pub fn direction(self, direction: AnimationDirection) -> (r: AnimationBuilder)
        ensures
            r == (AnimationBuilder {
                time_runner: Some(TimeRunnerSettings { direction, ..runner_or_default(self.time_runner) }),
                ..self
            }),
    {
        let mut b = self;
        let mut runner = b.time_runner_or_default();
        runner.direction = direction;
        b.time_runner = Some(runner);
        b
    }

    /// The runner to spawn for content that ends at `content_length`: the
    /// chosen settings, else the defaults, with the chosen length if any,
    /// else the content's.
    pub fn finished_runner(&self, content_length: Duration) -> (r: TimeRunnerSettings)
        ensures
            r == (TimeRunnerSettings {
                length: match self.custom_length {
                    Some(l) => l,
                    None => content_length,
                },
                ..runner_or_default(self.time_runner)
            }),
    {
        let mut runner = match self.time_runner {
            Some(r) => r,
            None => TimeRunnerSettings::new(),
        };
        runner.length = match self.custom_length {
            Some(l) => l,
            None => content_length,
        };
        runner
    }

    /// The span of a tween that fills the animation in place, from zero to
    /// `duration`.
    pub fn tween_here_span(duration: Duration) -> (r: TimeSpan)
        ensures
            r.min_bound() == TimeBound::Inclusive(Duration::spec_zero()),
            r.max_bound() == TimeBound::Exclusive(duration),
    {
        match TimeSpan::try_from_range_to(duration) {
            Ok(span) => span,
            Err(_) => {
                proof { assert(false); }
                TimeSpan::default()
            },
        }
    }
}

/// Choosing the repeat and the repeat style gives both, in either order.
pub proof fn lemma_repeat_settings_commute(current: Option<(TimerRepeat, RepeatStyle)>, repeat: TimerRepeat, style: RepeatStyle)
    ensures
        with_repeat_style(with_repeat(current, repeat), style) == Some((repeat, style)),
        with_repeat(with_repeat_style(current, style), repeat) == Some((repeat, style)),
{
}

/// Lays tweens out one after another from an offset on the timeline.
#[derive(Debug, Clone, Copy, PartialEq, Eq, Structural)]
pub struct TweensBuilder {
    offset: Duration,
}

impl View for TweensBuilder {
    type V = nat;

    /// The offset.
    closed spec fn view(&self) -> nat {
        self.offset@
    }
}

impl TweensBuilder {
    /// Start at zero.
    pub fn new() -> (r: TweensBuilder)
        ensures
            r@ == 0,
    {
        TweensBuilder { offset: Duration::zero() }
    }

    /// The current offset.
    pub fn offset(&self) -> (r: Duration)
        ensures
            r@ == self@,
    {
        self.offset
    }

    /// Set the offset to `duration`.
    pub fn go(&mut self, duration: Duration)
        ensures
            final(self)@ == duration@,
    {
        self.offset = duration;
    }

    /// Move the offset forward by `duration`.
    pub fn forward(&mut self, duration: Duration)
        requires
            old(self)@ + duration@ <= MAX_NANOS,
        ensures
            final(self)@ == old(self)@ + duration@,
    {
        self.offset = self.offset.add(duration);
    }

    /// Move the offset backward by `duration`, stopping at zero.
    pub fn backward(&mut self, duration: Duration)
        ensures
            final(self)@ == crate::combinator::backwarded(old(self)@, duration@),
    {
        self.offset = self.offset.saturating_sub(duration);
    }

    /// Store the offset in `v`.
    pub fn store_offset(&self, v: &mut Duration)
        ensures
            final(v)@ == self@,
    {
        *v = self.offset;
    }

    /// Lay out a tween of length `duration` at the offset, and move the
    /// offset to its end.
    pub fn tween(&mut self, duration: Duration) -> (r: TimeSpan)
        requires
            old(self)@ + duration@ <= MAX_NANOS,
        ensures
            r.min_bound() matches TimeBound::Inclusive(start) && start@ == old(self)@,
            r.max_bound() matches TimeBound::Exclusive(end) && end@ == old(self)@ + duration@,
            final(self)@ == old(self)@ + duration@,
    {
        crate::combinator::tween(&mut self.offset, duration)
    }

    /// Lay out an event lasting `duration` at the offset, and move the offset
    /// to its end.
    pub fn tween_event_for(&mut self, duration: Duration) -> (r: TimeSpan)
        requires
            old(self)@ + duration@ <= MAX_NANOS,
        ensures
            r.min_bound() matches TimeBound::Inclusive(start) && start@ == old(self)@,
            r.max_bound() matches TimeBound::Exclusive(end) && end@ == old(self)@ + duration@,
            final(self)@ == old(self)@ + duration@,
    {
        crate::combinator::tween(&mut self.offset, duration)
    }

    /// Lay out an instant event at the offset, which does not move.
    pub fn tween_event(&mut self) -> (r: TimeSpan)
        ensures
            r.min_bound() matches TimeBound::Inclusive(start) && start@ == old(self)@,
            r.max_bound() matches TimeBound::Exclusive(end) && end@ == old(self)@,
            final(self)@ == old(self)@,
    {
        match TimeSpan::try_from_range(self.offset, self.offset) {
            Ok(span) => span,
            Err(_) => {
                proof { assert(false); }
                TimeSpan::default()
            },
        }
    }
}

} // verus!
