//! The state of a tween player: elapsed time, length, direction and repeat
//! settings, and how one tick of real time advances it.
use vstd::prelude::*;

use crate::duration::{Duration, MAX_NANOS};
use crate::repeat::{advanced, can_advance, counter_fits, AnimationDirection, Repeat, RepeatStyle};

verus! {

/// The elapsed time of a tween player.
#[derive(Debug, Clone, Copy, PartialEq, Eq, Hash, Structural)]
pub struct Elasped {
    /// The elapsed time now.
    pub now: Duration,
    /// The elapsed time at the previous tick.
    pub previous: Duration,
    /// The repeat style used if the last tick repeated.
    pub repeat_style: Option<RepeatStyle>,
}

impl View for Elasped {
    type V = (nat, nat, Option<RepeatStyle>);

    open spec fn view(&self) -> (nat, nat, Option<RepeatStyle>) {
        (self.now@, self.previous@, self.repeat_style)
    }
}

impl Elasped {
    /// Elapsed time standing at `elasped`, with no repeat.
    pub fn new(elasped: Duration) -> (r: Elasped)
        ensures
            r.now == elasped,
            r.previous == elasped,
            r.repeat_style is None,
    {
        Elasped { now: elasped, previous: elasped, repeat_style: None }
    }
}

/// Remainder of `x` by the non-zero `m`: wrapping forward.
pub open spec fn wrap_rem(x: nat, m: nat) -> nat {
    x % m
}

/// Remainder of `-x` by the non-zero `m`, taken into `0..m`: wrapping backward.
pub open spec fn neg_wrap_rem(x: nat, m: nat) -> nat {
    if x % m == 0 { 0 } else { (m - x % m) as nat }
}

/// The repeat style in effect: the configured one, else wrapping around.
pub open spec fn style_or_default(style: Option<RepeatStyle>) -> RepeatStyle {
    match style {
        Some(s) => s,
        None => RepeatStyle::WrapAround,
    }
}

/// Whether one tick of `delta` nanoseconds can be taken without leaving the
/// range of durations, overflowing a repeat counter, or wrapping within an
/// empty length.
pub open spec fn tick_defined(
    paused: bool,
    now: nat,
    limit: nat,
    direction: AnimationDirection,
    repeat: Option<Repeat>,
    style: Option<RepeatStyle>,
    delta: nat,
) -> bool {
    if paused {
        true
    } else {
        match (direction, repeat, style_or_default(style)) {
            (AnimationDirection::Forward, None, _) => now >= limit || now + delta <= MAX_NANOS,
            (AnimationDirection::Backward, None, _) => true,
            (AnimationDirection::Forward, Some(r), RepeatStyle::WrapAround) => {
                &&& now + delta <= MAX_NANOS
                &&& now + delta >= limit ==> counter_fits(r)
                &&& now + delta >= limit && can_advance(r) ==> limit > 0
            },
            (AnimationDirection::Backward, Some(r), RepeatStyle::WrapAround) => {
                &&& delta > now ==> counter_fits(r)
                &&& delta > now && can_advance(r) ==> limit > 0
            },
            (AnimationDirection::Forward, Some(r), RepeatStyle::PingPong) => {
                &&& now + delta <= MAX_NANOS
                &&& now + delta > limit ==> counter_fits(r)
                &&& now + delta > limit && can_advance(r) ==> limit > 0
            },
            (AnimationDirection::Backward, Some(r), RepeatStyle::PingPong) => {
                &&& delta > now ==> counter_fits(r)
                &&& delta > now && can_advance(r) ==> limit > 0
            },
        }
    }
}

/// The elapsed time, direction and repeat after one tick of `delta`
/// nanoseconds, starting from elapsed time `el` (now, previous, repeat
/// style). The previous time becomes the time before the tick. Reaching an
/// end counts one repeat where the repeat allows one more, and stops at that
/// end where it does not.
pub open spec fn ticked(
    paused: bool,
    el: (nat, nat, Option<RepeatStyle>),
    limit: nat,
    direction: AnimationDirection,
    repeat: Option<Repeat>,
    style: Option<RepeatStyle>,
    delta: nat,
) -> ((nat, nat, Option<RepeatStyle>), AnimationDirection, Option<Repeat>) {
    let now = el.0;
    if paused {
        (el, direction, repeat)
    } else {
        match (direction, repeat, style_or_default(style)) {
            (AnimationDirection::Forward, None, _) => if now >= limit {
                (el, direction, repeat)
            } else {
                let n = now + delta;
                ((if n <= limit { n } else { limit }, now, None), direction, repeat)
            },
            (AnimationDirection::Backward, None, _) => if now == 0 {
                (el, direction, repeat)
            } else {
                ((if delta <= now { (now - delta) as nat } else { 0 }, now, None), direction, repeat)
            },
            (AnimationDirection::Forward, Some(r), RepeatStyle::WrapAround) => {
                let n = now + delta;
                if n >= limit && !can_advance(r) {
                    ((limit, now, None), direction, repeat)
                } else if n >= limit {
                    ((wrap_rem(n, limit), now, Some(RepeatStyle::WrapAround)), direction, Some(advanced(r)))
                } else {
                    ((n, now, None), direction, repeat)
                }
            },
            (AnimationDirection::Backward, Some(r), RepeatStyle::WrapAround) => {
                if delta > now && !can_advance(r) {
                    ((0, now, None), direction, repeat)
                } else if delta > now {
                    (
                        (neg_wrap_rem((delta - now) as nat, limit), now, Some(RepeatStyle::WrapAround)),
                        direction,
                        Some(advanced(r)),
                    )
                } else {
                    (((now - delta) as nat, now, None), direction, repeat)
                }
            },
            (AnimationDirection::Forward, Some(r), RepeatStyle::PingPong) => {
                let n = now + delta;
                if n > limit && !can_advance(r) {
                    ((limit, now, None), direction, repeat)
                } else if n > limit {
                    (
                        (neg_wrap_rem(n, limit), now, Some(RepeatStyle::PingPong)),
                        AnimationDirection::Backward,
                        Some(advanced(r)),
                    )
                } else {
                    ((n, now, None), direction, repeat)
                }
            },
            (AnimationDirection::Backward, Some(r), RepeatStyle::PingPong) => {
                if delta > now && !can_advance(r) {
                    ((0, now, None), direction, repeat)
                } else if delta > now {
                    (
                        (wrap_rem((delta - now) as nat, limit), now, Some(RepeatStyle::PingPong)),
                        AnimationDirection::Forward,
                        Some(advanced(r)),
                    )
                } else {
                    (((now - delta) as nat, now, None), direction, repeat)
                }
            },
        }
    }
}

/// The playback state of a tween player.
#[derive(Debug, Clone, Copy, PartialEq, Eq, Hash, Structural)]
pub struct TweenPlayerState {
    /// Whether ticking leaves the state unchanged.
    pub paused: bool,
    /// The elapsed time.
    pub elasped: Elasped,
    /// The length of the animation.
    pub duration_limit: Duration,
    /// The direction in which time runs.
    pub direction: AnimationDirection,
    /// How many times to repeat, if at all.
    pub repeat: Option<Repeat>,
    /// How to repeat.
    pub repeat_style: Option<RepeatStyle>,
}

/// A player state as plain values: paused, elapsed time, length, direction,
/// repeat, repeat style.
pub type PlayerView = (bool, (nat, nat, Option<RepeatStyle>), nat, AnimationDirection, Option<Repeat>, Option<RepeatStyle>);

impl View for TweenPlayerState {
    type V = PlayerView;

    open spec fn view(&self) -> PlayerView {
        (self.paused, self.elasped@, self.duration_limit@, self.direction, self.repeat, self.repeat_style)
    }
}

impl TweenPlayerState {
    /// A running, forward, non-repeating state of length `duration_limit`,
    /// with no time elapsed.
    pub fn new(duration_limit: Duration) -> (r: TweenPlayerState)
        ensures
            r@ == (false, (0nat, 0nat, None::<RepeatStyle>), duration_limit@, AnimationDirection::Forward,
                None::<Repeat>, None::<RepeatStyle>),
    {
        TweenPlayerState {
            paused: false,
            elasped: Elasped::new(Duration::zero()),
            duration_limit,
            direction: AnimationDirection::Forward,
            repeat: None,
            repeat_style: None,
        }
    }

    /// Set the length.
    pub fn set_duration(&mut self, duration: Duration)
        ensures
            final(self)@ == (old(self)@.0, old(self)@.1, duration@, old(self)@.3, old(self)@.4, old(self)@.5),
    {
        self.duration_limit = duration;
    }

    /// Set whether the state is paused.
    pub fn set_paused(&mut self, paused: bool)
        ensures
            final(self)@ == (paused, old(self)@.1, old(self)@.2, old(self)@.3, old(self)@.4, old(self)@.5),
    {
        self.paused = paused;
    }

    /// Set the direction.
    pub fn set_direction(&mut self, direction: AnimationDirection)
        ensures
            final(self)@ == (old(self)@.0, old(self)@.1, old(self)@.2, direction, old(self)@.4, old(self)@.5),
    {
        self.direction = direction;
    }

    /// Set the repeat.
    pub fn set_repeat(&mut self, repeat: Option<Repeat>)
        ensures
            final(self)@ == (old(self)@.0, old(self)@.1, old(self)@.2, old(self)@.3, repeat, old(self)@.5),
    {
        self.repeat = repeat;
    }

    /// Set the repeat style.
    pub fn set_repeat_style(&mut self, repeat_style: Option<RepeatStyle>)
        ensures
            final(self)@ == (old(self)@.0, old(self)@.1, old(self)@.2, old(self)@.3, old(self)@.4, repeat_style),
    {
        self.repeat_style = repeat_style;
    }

    /// The elapsed time.
    pub fn elasped(&self) -> (r: Elasped)
        ensures
            r@ == self@.1,
    {
        self.elasped
    }

    /// Advance the state by one tick of `delta` real time: unless paused, the
    /// elapsed time moves in the current direction, stops at the ends of a
    /// non-repeating animation, and wraps around or turns back at the ends of
    /// a repeating one while its repeat still allows it, counting each such
    /// repeat in the stored repeat.
    pub fn tick(&mut self, delta: Duration)
        requires
            tick_defined(old(self)@.0, old(self)@.1.0, old(self)@.2, old(self)@.3, old(self)@.4, old(self)@.5, delta@),
        ensures
            ({
                let v = old(self)@;
                let t = ticked(v.0, v.1, v.2, v.3, v.4, v.5, delta@);
                final(self)@ == (v.0, t.0, v.2, t.1, t.2, v.5)
            }),
            final(self).paused == old(self).paused,
            final(self).duration_limit == old(self).duration_limit,
            final(self).repeat_style == old(self).repeat_style,
            final(self).direction == ticked(old(self)@.0, old(self)@.1, old(self)@.2, old(self)@.3, old(self)@.4, old(self)@.5, delta@).1,
            final(self).repeat == ticked(old(self)@.0, old(self)@.1, old(self)@.2, old(self)@.3, old(self)@.4, old(self)@.5, delta@).2,
            final(self).elasped != old(self).elasped ==> final(self).elasped.previous == old(self).elasped.now,
            old(self).direction == AnimationDirection::Backward && final(self).elasped.repeat_style is None
                ==> final(self).elasped.now@ <= old(self).elasped.now@,
            old(self).direction == AnimationDirection::Forward && final(self).elasped.repeat_style is None
                && old(self).elasped.now@ <= old(self).duration_limit@ ==> old(self).elasped.now@
                <= final(self).elasped.now@,
    {
        proof {
            lemma_no_repeat_no_jump(self.paused, self.elasped@, self.duration_limit@, self.direction, self.repeat,
                self.repeat_style, delta@);
        }
        if self.paused {
            return;
        }
        let style = match self.repeat_style {
            Some(s) => s,
            None => RepeatStyle::WrapAround,
        };
        let now = self.elasped.now;
        let limit = self.duration_limit;
        match (self.direction, self.repeat, style) {
            (AnimationDirection::Forward, None, _) => {
                if limit.le(&now) {
                    return;
                }
                let new_now = now.add(delta).min(limit);
                self.elasped = Elasped { now: new_now, previous: now, repeat_style: None };
            },
            (AnimationDirection::Backward, None, _) => {
                if now.is_zero() {
                    return;
                }
                let new_now = now.saturating_sub(delta);
                self.elasped = Elasped { now: new_now, previous: now, repeat_style: None };
            },
            (AnimationDirection::Forward, Some(repeat), RepeatStyle::WrapAround) => {
                let mut r = repeat;
                let new_now = now.add(delta);
                let will_wrap = limit.le(&new_now);
                if will_wrap {
                    let counted = r.try_advance_counter();
                    self.repeat = Some(r);
                    if !counted {
                        self.elasped = Elasped { now: limit, previous: now, repeat_style: None };
                        return;
                    }
                }
                proof {
                    if !will_wrap {
                        vstd::arithmetic::div_mod::lemma_small_mod(new_now@, limit@);
                    }
                }
                let new_now = new_now.rem(limit);
                self.elasped = Elasped {
                    now: new_now,
                    previous: now,
                    repeat_style: if will_wrap { Some(RepeatStyle::WrapAround) } else { None },
                };
            },
            (AnimationDirection::Backward, Some(repeat), RepeatStyle::WrapAround) => {
                let mut r = repeat;
                let will_wrap = now.lt(&delta);
                if will_wrap {
                    let counted = r.try_advance_counter();
                    self.repeat = Some(r);
                    if !counted {
                        self.elasped = Elasped { now: Duration::zero(), previous: now, repeat_style: None };
                        return;
                    }
                }
                let new_now = if will_wrap {
                    neg_duration_rem(delta.sub(now), limit)
                } else {
                    now.sub(delta)
                };
                self.elasped = Elasped {
                    now: new_now,
                    previous: now,
                    repeat_style: if will_wrap { Some(RepeatStyle::WrapAround) } else { None },
                };
            },
            (AnimationDirection::Forward, Some(repeat), RepeatStyle::PingPong) => {
                let mut r = repeat;
                let new_now = now.add(delta);
                let will_pingpong = limit.lt(&new_now);
                if will_pingpong {
                    let counted = r.try_advance_counter();
                    self.repeat = Some(r);
                    if !counted {
                        self.elasped = Elasped { now: limit, previous: now, repeat_style: None };
                        return;
                    }
                    let new_now = neg_duration_rem(new_now, limit);
                    self.direction = AnimationDirection::Backward;
                    self.elasped = Elasped { now: new_now, previous: now, repeat_style: Some(RepeatStyle::PingPong) };
                } else {
                    self.elasped = Elasped { now: new_now, previous: now, repeat_style: None };
                }
            },
            (AnimationDirection::Backward, Some(repeat), RepeatStyle::PingPong) => {
                let mut r = repeat;
                let will_pingpong = now.lt(&delta);
                if will_pingpong {
                    let counted = r.try_advance_counter();
                    self.repeat = Some(r);
                    if !counted {
                        self.elasped = Elasped { now: Duration::zero(), previous: now, repeat_style: None };
                        return;
                    }
                    let new_now = delta.sub(now).rem(limit);
                    self.direction = AnimationDirection::Forward;
                    self.elasped = Elasped { now: new_now, previous: now, repeat_style: Some(RepeatStyle::PingPong) };
                } else {
                    self.elasped = Elasped { now: now.sub(delta), previous: now, repeat_style: None };
                }
            },
        }
    }
}

/// The remainder of `-neg` by the non-empty `max`, taken into `0..max`.
pub fn neg_duration_rem(neg: Duration, max: Duration) -> (r: Duration)
    requires
        max@ > 0,
    ensures
        r@ == neg_wrap_rem(neg@, max@),
        r@ < max@,
{
    let m = neg.rem(max);
    if m.is_zero() {
        Duration::zero()
    } else {
        max.sub(m)
    }
}

/// The remainder of `duration` by the non-empty `max`.
pub fn duration_rem(duration: Duration, max: Duration) -> (r: Duration)
    requires
        max@ > 0,
    ensures
        r@ == wrap_rem(duration@, max@),
        r@ < max@,
{
    duration.rem(max)
}

/// A paused player never changes on a tick.
pub proof fn lemma_paused_tick_unchanged(
    el: (nat, nat, Option<RepeatStyle>),
    limit: nat,
    direction: AnimationDirection,
    repeat: Option<Repeat>,
    style: Option<RepeatStyle>,
    delta: nat,
)
    ensures
        ticked(true, el, limit, direction, repeat, style, delta) == (el, direction, repeat),
{
}

/// The elapsed time never leaves the animation: if it lies between zero and
/// the length before a tick, it does after it.
pub proof fn lemma_tick_stays_within_length(
    paused: bool,
    el: (nat, nat, Option<RepeatStyle>),
    limit: nat,
    direction: AnimationDirection,
    repeat: Option<Repeat>,
    style: Option<RepeatStyle>,
    delta: nat,
)
    requires
        el.0 <= limit,
        tick_defined(paused, el.0, limit, direction, repeat, style, delta),
    ensures
        ticked(paused, el, limit, direction, repeat, style, delta).0.0 <= limit,
{
    if limit > 0 {
        let n = el.0 + delta;
        vstd::arithmetic::div_mod::lemma_mod_bound(n as int, limit as int);
        if delta > el.0 {
            vstd::arithmetic::div_mod::lemma_mod_bound((delta - el.0) as int, limit as int);
        }
    }
}

/// Without a repeat, time only runs in the player's direction: forward it never
/// decreases, backward it never increases, and the direction never changes.
pub proof fn lemma_no_repeat_monotone(
    paused: bool,
    el: (nat, nat, Option<RepeatStyle>),
    limit: nat,
    direction: AnimationDirection,
    style: Option<RepeatStyle>,
    delta: nat,
)
    ensures
        ({
            let t = ticked(paused, el, limit, direction, None, style, delta);
            &&& t.1 == direction
            &&& direction == AnimationDirection::Forward && el.0 <= limit ==> el.0 <= t.0.0
            &&& direction == AnimationDirection::Backward ==> t.0.0 <= el.0
        }),
{
}

/// A ping-pong that turns around reverses the direction, and any other tick
/// keeps it.
pub proof fn lemma_direction_changes_only_on_ping_pong(
    paused: bool,
    el: (nat, nat, Option<RepeatStyle>),
    limit: nat,
    direction: AnimationDirection,
    repeat: Option<Repeat>,
    style: Option<RepeatStyle>,
    delta: nat,
)
    ensures
        ({
            let t = ticked(paused, el, limit, direction, repeat, style, delta);
            t.1 == direction || (t.0.2 == Some(RepeatStyle::PingPong) && t.1 == crate::repeat::flipped(direction))
        }),
{
}

/// The previous elapsed time is the time before the tick: a tick either
/// leaves the elapsed time as it was or moves the old current time into
/// the previous one.
pub proof fn lemma_previous_is_time_before_tick(
    paused: bool,
    el: (nat, nat, Option<RepeatStyle>),
    limit: nat,
    direction: AnimationDirection,
    repeat: Option<Repeat>,
    style: Option<RepeatStyle>,
    delta: nat,
)
    ensures
        ({
            let t = ticked(paused, el, limit, direction, repeat, style, delta);
            t.0 == el || t.0.1 == el.0
        }),
{
}

/// A repeat of a limited number of times is used up: each repeat at an end
/// is counted in the stored repeat, the count never passes the limit, and
/// once it reaches the limit no tick repeats any more.
pub proof fn lemma_repeat_is_limited(
    paused: bool,
    el: (nat, nat, Option<RepeatStyle>),
    limit: nat,
    direction: AnimationDirection,
    times: usize,
    times_repeated: usize,
    style: Option<RepeatStyle>,
    delta: nat,
)
    requires
        times_repeated <= times,
    ensures
        ({
            let t = ticked(
                paused,
                el,
                limit,
                direction,
                Some(Repeat::Times { times, times_repeated }),
                style,
                delta,
            );
            &&& t.2 matches Some(Repeat::Times { times: t2, times_repeated: n }) && t2 == times && times_repeated
                <= n <= times
            &&& t.0.2 is Some && t.0 != el ==> t.2 == Some(Repeat::Times { times, times_repeated: (times_repeated + 1) as usize })
            &&& times_repeated == times ==> t.0 == el || t.0.2 is None
        }),
{
}

/// A tick that does not repeat never moves time against the direction of
/// play: running backward the time never grows, and running forward from
/// within the animation it never shrinks.
pub proof fn lemma_no_repeat_no_jump(
    paused: bool,
    el: (nat, nat, Option<RepeatStyle>),
    limit: nat,
    direction: AnimationDirection,
    repeat: Option<Repeat>,
    style: Option<RepeatStyle>,
    delta: nat,
)
    ensures
        ({
            let t = ticked(paused, el, limit, direction, repeat, style, delta);
            &&& direction == AnimationDirection::Backward && t.0.2 is None ==> t.0.0 <= el.0
            &&& direction == AnimationDirection::Forward && t.0.2 is None && el.0 <= limit ==> el.0 <= t.0.0
        }),
{
}

/// A player whose repeats are used up stops at the end it runs towards when
/// a tick reaches it: at zero running backward, at its length running
/// forward, without repeating.
pub proof fn lemma_used_up_repeat_stops_at_the_end(
    el: (nat, nat, Option<RepeatStyle>),
    limit: nat,
    direction: AnimationDirection,
    r: Repeat,
    style: Option<RepeatStyle>,
    delta: nat,
)
    requires
        !can_advance(r),
    ensures
        ({
            let t = ticked(false, el, limit, direction, Some(r), style, delta);
            &&& direction == AnimationDirection::Backward && delta > el.0 ==> t.0 == (0nat, el.0, None::<RepeatStyle>)
                && t.1 == direction
            &&& direction == AnimationDirection::Forward && el.0 + delta > limit ==> t.0 == (limit, el.0, None::<RepeatStyle>)
                && t.1 == direction
        }),
{
}

} // verus!
