//! Which tweens a tweener's tick touches, and at what time within each tween.
use vstd::prelude::*;

use crate::duration::{Duration, MAX_NANOS};
use crate::repeat::{flipped, AnimationDirection, RepeatStyle};
use crate::span::{quotient_of, DurationQuotient, TimeSpan, TimeBound};
use crate::repeat::AnimationDirection::{Backward, Forward};
use crate::repeat::RepeatStyle::{PingPong, WrapAround};
use crate::span::DurationQuotient::{After, Before, Inside};

verus! {

/// Which time a touched tween is set to.
#[derive(Debug, Clone, Copy, PartialEq, Eq, Hash, Structural)]
pub enum UseTime {
    /// The tweener's current time.
    Current,
    /// The tween's start.
    Min,
    /// The tween's end.
    Max,
}

/// Whether a tick in `direction` from a time in `previous` to a time in
/// `now` (each against the tween's span), with the repeat style `repeated`
/// if the tick repeated, touches the tween, and with which time.
///
/// Without a repeat, a tween is touched when both times lie inside it, or
/// when the tick entered it, left it or crossed it in the direction of
/// travel. A tick that wrapped around forward from inside or before the span
/// to before it sets the tween to its end; one that wrapped backward from
/// inside or after it to after it sets it to its start. The two cases that
/// skip a span altogether while wrapping, and a ping-pong that turned back
/// without reaching the span, leave the tween untouched.
pub open spec fn visible_spec(
    direction: AnimationDirection,
    previous: DurationQuotient,
    now: DurationQuotient,
    repeated: Option<RepeatStyle>,
) -> Option<UseTime> {
    match repeated {
        None => match (direction, previous, now) {
            (_, Inside, Inside) => Some(UseTime::Current),
            (Forward, Before, Inside) | (Forward, Inside, After) | (Forward, Before, After) => Some(UseTime::Current),
            (Backward, After, Inside) | (Backward, Inside, Before) | (Backward, After, Before) => Some(UseTime::Current),
            _ => None,
        },
        Some(RepeatStyle::WrapAround) => match (direction, previous, now) {
            (Forward, Before, Before) | (Forward, Inside, Before) => Some(UseTime::Max),
            (Forward, After, Before) => None,
            (Forward, _, _) => Some(UseTime::Current),
            (Backward, After, After) | (Backward, Inside, After) => Some(UseTime::Min),
            (Backward, Before, After) => None,
            (Backward, _, _) => Some(UseTime::Current),
        },
        Some(RepeatStyle::PingPong) => match (direction, previous, now) {
            (Forward, Before, Before) => None,
            (Backward, After, After) => None,
            _ => Some(UseTime::Current),
        },
    }
}

/// Whether a tick touches a tween: see [`visible_spec`].
pub fn tween_visible(
    direction: AnimationDirection,
    previous_quotient: DurationQuotient,
    now_quotient: DurationQuotient,
    repeated: Option<RepeatStyle>,
) -> (r: Option<UseTime>)
    ensures
        r == visible_spec(direction, previous_quotient, now_quotient, repeated),
        repeated is Some && now_quotient == DurationQuotient::Inside ==> r == Some(UseTime::Current),
        previous_quotient == DurationQuotient::Inside && now_quotient == DurationQuotient::Inside ==> r == Some(
            UseTime::Current,
        ),
{
    match (direction, previous_quotient, now_quotient, repeated) {
        (_, Inside, Inside, None) => Some(UseTime::Current),
        | (Forward, Before, Inside, None)
        | (Forward, Inside, After, None)
        | (Forward, Before, After, None) => Some(UseTime::Current),
        | (Backward, After, Inside, None)
        | (Backward, Inside, Before, None)
        | (Backward, After, Before, None) => Some(UseTime::Current),
        | (Forward, Before, Before, Some(WrapAround))
        | (Forward, Inside, Before, Some(WrapAround)) => Some(UseTime::Max),
        | (Forward, Before, Inside, Some(WrapAround))
        | (Forward, Before, After, Some(WrapAround))
        | (Forward, Inside, Inside, Some(WrapAround))
        | (Forward, Inside, After, Some(WrapAround))
        | (Forward, After, Inside, Some(WrapAround))
        | (Forward, After, After, Some(WrapAround)) => Some(UseTime::Current),
        | (Backward, After, After, Some(WrapAround))
        | (Backward, Inside, After, Some(WrapAround)) => Some(UseTime::Min),
        | (Backward, Before, Before, Some(WrapAround))
        | (Backward, Before, Inside, Some(WrapAround))
        | (Backward, Inside, Before, Some(WrapAround))
        | (Backward, Inside, Inside, Some(WrapAround))
        | (Backward, After, Before, Some(WrapAround))
        | (Backward, After, Inside, Some(WrapAround)) => Some(UseTime::Current),
        | (Backward, Before, Before, Some(PingPong))
        | (Backward, Before, Inside, Some(PingPong))
        | (Backward, Before, After, Some(PingPong))
        | (Backward, Inside, Before, Some(PingPong))
        | (Backward, Inside, Inside, Some(PingPong))
        | (Backward, Inside, After, Some(PingPong))
        | (Backward, After, Before, Some(PingPong))
        | (Backward, After, Inside, Some(PingPong)) => Some(UseTime::Current),
        | (Forward, Before, Inside, Some(PingPong))
        | (Forward, Before, After, Some(PingPong))
        | (Forward, Inside, Before, Some(PingPong))
        | (Forward, Inside, Inside, Some(PingPong))
        | (Forward, Inside, After, Some(PingPong))
        | (Forward, After, Before, Some(PingPong))
        | (Forward, After, Inside, Some(PingPong))
        | (Forward, After, After, Some(PingPong)) => Some(UseTime::Current),
        _ => None,
    }
}

/// The quotient seen from the other end of the timeline.
pub open spec fn mirrored_quotient(q: DurationQuotient) -> DurationQuotient {
    match q {
        DurationQuotient::Before => DurationQuotient::After,
        DurationQuotient::Inside => DurationQuotient::Inside,
        DurationQuotient::After => DurationQuotient::Before,
    }
}

/// The time choice seen from the other end of the timeline.
pub open spec fn mirrored_use(u: Option<UseTime>) -> Option<UseTime> {
    match u {
        Some(UseTime::Min) => Some(UseTime::Max),
        Some(UseTime::Max) => Some(UseTime::Min),
        other => other,
    }
}

/// Playing backward is playing forward with the timeline mirrored: reversing
/// the direction and swapping "before" with "after" swaps the tween's start
/// with its end in the result, and changes nothing else.
pub proof fn lemma_visible_mirror(
    direction: AnimationDirection,
    previous: DurationQuotient,
    now: DurationQuotient,
    repeated: Option<RepeatStyle>,
)
    ensures
        visible_spec(flipped(direction), mirrored_quotient(previous), mirrored_quotient(now), repeated)
            == mirrored_use(visible_spec(direction, previous, now, repeated)),
{
}

/// A tween whose span holds both the previous and the current time is always
/// touched, at the current time.
pub proof fn lemma_inside_always_visible(direction: AnimationDirection, repeated: Option<RepeatStyle>)
    ensures
        visible_spec(direction, DurationQuotient::Inside, DurationQuotient::Inside, repeated)
            == Some(UseTime::Current),
{
}

/// The direction in which a tick moved: from the order of the two times where
/// the tick repeated, else the timer's direction.
pub open spec fn tick_direction(
    previous: nat,
    now: nat,
    timer_direction: AnimationDirection,
    repeat_style: Option<RepeatStyle>,
) -> AnimationDirection {
    if repeat_style is Some {
        if previous < now {
            AnimationDirection::Forward
        } else if previous == now {
            timer_direction
        } else {
            AnimationDirection::Backward
        }
    } else {
        timer_direction
    }
}

/// The time within a tween of span `span` after a tick of its span tweener
/// from `previous` to `now`, or `None` where the tick does not touch it.
/// The time is measured from the tween's start and never passes its length.
pub open spec fn local_elasped_spec(
    span_min: TimeBound,
    span_max: TimeBound,
    now: nat,
    previous: nat,
    timer_direction: AnimationDirection,
    repeat_style: Option<RepeatStyle>,
) -> Option<nat> {
    let length = (span_max.dur() - span_min.dur()) as nat;
    let local = if now >= span_min.dur() {
        let l = (now - span_min.dur()) as nat;
        if l <= length { l } else { length }
    } else {
        0
    };
    let direction = tick_direction(previous, now, timer_direction, repeat_style);
    match visible_spec(
        direction,
        quotient_of(span_min, span_max, previous),
        quotient_of(span_min, span_max, now),
        repeat_style,
    ) {
        Some(UseTime::Current) => Some(local),
        Some(UseTime::Min) => Some(0),
        Some(UseTime::Max) => Some(length),
        None => None,
    }
}

/// The time within a tween after a tick of its span tweener: see
/// [`local_elasped_spec`].
pub fn span_tween_elasped(
    span: &TimeSpan,
    now: Duration,
    previous: Duration,
    timer_direction: AnimationDirection,
    repeat_style: Option<RepeatStyle>,
) -> (r: Option<Duration>)
    ensures
        match r {
            Some(d) => local_elasped_spec(span.min_bound(), span.max_bound(), now@, previous@,
                timer_direction, repeat_style) == Some(d@),
            None => local_elasped_spec(span.min_bound(), span.max_bound(), now@, previous@,
                timer_direction, repeat_style) is None,
        },
{
    let now_quotient = span.quotient(now);
    let previous_quotient = span.quotient(previous);
    let local_max = span.length();
    let local_elasped = now.saturating_sub(span.min().duration()).min(local_max);
    let direction = match repeat_style {
        Some(_) => if previous.lt(&now) {
            AnimationDirection::Forward
        } else if previous.eq(&now) {
            timer_direction
        } else {
            AnimationDirection::Backward
        },
        None => timer_direction,
    };
    match tween_visible(direction, previous_quotient, now_quotient, repeat_style) {
        Some(UseTime::Current) => Some(local_elasped),
        Some(UseTime::Min) => Some(Duration::zero()),
        Some(UseTime::Max) => Some(local_max),
        None => None,
    }
}

/// Delay a tween: the tween keeps its length but starts at `delay`, as a
/// half-open span, and the tweener's new length is where it now ends.
pub fn with_delay(span: &TimeSpan, delay: Duration) -> (r: (TimeSpan, Duration))
    requires
        delay@ + (span.max_bound().dur() - span.min_bound().dur()) <= MAX_NANOS,
    ensures
        r.0.min_bound() == TimeBound::Inclusive(delay),
        r.0.max_bound() == TimeBound::Exclusive(r.1),
        r.1@ == delay@ + (span.max_bound().dur() - span.min_bound().dur()),
{
    let length = span.length();
    let end = delay.add(length);
    let new_span = match TimeSpan::try_from_range(delay, end) {
        Ok(s) => s,
        Err(_) => {
            proof { assert(false); }
            TimeSpan::default()
        },
    };
    (new_span, end)
}

/// The progress a span tweener gives one of its tweens after a tick.
#[derive(Debug, Clone, Copy, PartialEq, Eq, Structural)]
pub enum SpanProgress {
    /// The tween is `elapsed` into its non-empty `length`: its progress is
    /// their ratio.
    Fraction {
        #[allow(missing_docs)]
        elapsed: Duration,
        #[allow(missing_docs)]
        length: Duration,
    },
    /// The tween is empty and the tweener runs forward: it is complete.
    Complete,
    /// The tween is empty and the tweener runs backward: it is at its start.
    AtStart,
    /// The tick does not touch the tween: its progress is removed.
    Untouched,
}

/// A tween's progress as plain values.
pub enum ProgressView {
    /// `elapsed` into a non-empty `length`.
    Fraction(nat, nat),
    /// Complete.
    Complete,
    /// At its start.
    AtStart,
    /// Untouched.
    Untouched,
}

impl View for SpanProgress {
    type V = ProgressView;

    open spec fn view(&self) -> ProgressView {
        match *self {
            SpanProgress::Fraction { elapsed, length } => ProgressView::Fraction(elapsed@, length@),
            SpanProgress::Complete => ProgressView::Complete,
            SpanProgress::AtStart => ProgressView::AtStart,
            SpanProgress::Untouched => ProgressView::Untouched,
        }
    }
}

/// The progress of a tween of span `span_min..span_max` after a tick of its
/// span tweener from `previous` to `now`: untouched where the tick does not
/// touch it; else its local time against its length, or, for an empty tween,
/// complete when the tweener runs forward and at its start when it runs
/// backward.
pub open spec fn progress_spec(
    span_min: TimeBound,
    span_max: TimeBound,
    now: nat,
    previous: nat,
    timer_direction: AnimationDirection,
    repeat_style: Option<RepeatStyle>,
) -> ProgressView {
    match local_elasped_spec(span_min, span_max, now, previous, timer_direction, repeat_style) {
        None => ProgressView::Untouched,
        Some(t) => if span_max.dur() > span_min.dur() {
            ProgressView::Fraction(t, (span_max.dur() - span_min.dur()) as nat)
        } else if timer_direction == AnimationDirection::Forward {
            ProgressView::Complete
        } else {
            ProgressView::AtStart
        },
    }
}

/// The progress of a tween of span `span` after a tick of its span tweener
/// from `previous` to `now`: see [`progress_spec`].
pub fn span_tween_progress(
    span: &TimeSpan,
    now: Duration,
    previous: Duration,
    timer_direction: AnimationDirection,
    repeat_style: Option<RepeatStyle>,
) -> (r: SpanProgress)
    ensures
        r@ == progress_spec(span.min_bound(), span.max_bound(), now@, previous@, timer_direction, repeat_style),
{
    match span_tween_elasped(span, now, previous, timer_direction, repeat_style) {
        None => SpanProgress::Untouched,
        Some(elapsed) => {
            let length = span.length();
            if !length.is_zero() {
                SpanProgress::Fraction { elapsed, length }
            } else {
                match timer_direction {
                    AnimationDirection::Forward => SpanProgress::Complete,
                    AnimationDirection::Backward => SpanProgress::AtStart,
                }
            }
        },
    }
}

/// A touched tween's time never passes its length.
pub proof fn lemma_local_elasped_within_length(
    span_min: TimeBound,
    span_max: TimeBound,
    now: nat,
    previous: nat,
    timer_direction: AnimationDirection,
    repeat_style: Option<RepeatStyle>,
)
    requires
        span_min.dur() <= span_max.dur(),
    ensures
        local_elasped_spec(span_min, span_max, now, previous, timer_direction, repeat_style) matches Some(t)
            ==> t <= span_max.dur() - span_min.dur(),
{
}

/// After a tick that repeated, a tween whose span holds the current time is
/// always touched, at the current time, wherever the previous time lay and
/// whichever way the tick moved.
pub proof fn lemma_repeat_inside_is_current(direction: AnimationDirection, previous: DurationQuotient, style: RepeatStyle)
    ensures
        visible_spec(direction, previous, DurationQuotient::Inside, Some(style)) == Some(UseTime::Current),
{
}

/// After a tick that repeated, a tween whose span holds the current time
/// gets as its local time the current time past its start.
pub proof fn lemma_repeat_inside_local_time(
    span_min: TimeBound,
    span_max: TimeBound,
    now: nat,
    previous: nat,
    timer_direction: AnimationDirection,
    style: RepeatStyle,
)
    requires
        span_min.dur() <= span_max.dur(),
        quotient_of(span_min, span_max, now) == DurationQuotient::Inside,
    ensures
        local_elasped_spec(span_min, span_max, now, previous, timer_direction, Some(style)) == Some(
            (now - span_min.dur()) as nat,
        ),
{
}

} // verus!
