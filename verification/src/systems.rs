//! The per-frame decisions of the tweener systems: which tweens a tweener
//! gives which progress, which lose their progress, and when a tweener
//! reports that it ended.
use vstd::prelude::*;

use crate::player::Elasped;
use crate::repeat::{AnimationDirection, RepeatStyle};
use crate::span::{DurationQuotient, TimeSpan};
use crate::tweener::{
    lemma_inside_always_visible, lemma_local_elasped_within_length, progress_spec, span_tween_progress, tween_visible,
    visible_spec, ProgressView, SpanProgress, UseTime,
};
use crate::span::TimeBound;

verus! {

/// How one time compares with another.
#[derive(Debug, Clone, Copy, PartialEq, Eq, Hash, Structural)]
pub enum TimeOrder {
    /// The first time is earlier.
    Earlier,
    /// The two times are equal.
    Same,
    /// The first time is later.
    Later,
}

/// A tween of a tweener: its entity, and where the timer's previous and
/// current times lie against its span.
#[derive(Debug, Clone, Copy, PartialEq, Eq, Structural)]
pub struct TweenQuotients {
    /// The tween's entity.
    pub tween: u64,
    /// Where the previous time lies.
    pub previous: DurationQuotient,
    /// Where the current time lies.
    pub now: DurationQuotient,
}

/// A tweener that is not marked to be skipped, as the tweener system sees it.
#[derive(Debug, Clone)]
pub struct TweenerState {
    /// The tweener's entity.
    pub tweener: u64,
    /// Whether its timer is completed.
    pub completed: bool,
    /// Whether the whole part of the timer's current period is not zero: the
    /// last tick went past an end.
    pub period_crossed: bool,
    /// The timer's repeat style, where it repeats.
    pub repeat_style: Option<RepeatStyle>,
    /// How the timer's previous time compares with its current one.
    pub time_order: TimeOrder,
    /// The timer's direction.
    pub direction: AnimationDirection,
    /// Whether the timer is completed once its previous time is brought up to
    /// its current one.
    pub completed_after_collapse: bool,
    /// Its tweens: itself where it has a span, then those of its children that
    /// have one and are not tweeners themselves, in order.
    pub tweens: Vec<TweenQuotients>,
}

/// What the tweener system does.
#[derive(Debug, Clone, Copy, PartialEq, Eq, Structural)]
pub enum TweenerAction {
    /// Set the progress of `tween` to the time `use_time`.
    SetProgress {
        #[allow(missing_docs)]
        tween: u64,
        #[allow(missing_docs)]
        use_time: UseTime,
    },
    /// Remove the progress of `tween`.
    RemoveProgress {
        #[allow(missing_docs)]
        tween: u64,
    },
    /// Bring the previous time of the timer of `tweener` up to its current one.
    Collapse {
        #[allow(missing_docs)]
        tweener: u64,
    },
}

/// Removing the progress of each of `tweens`, in order.
pub open spec fn progress_removals(tweens: Seq<u64>) -> Seq<TweenerAction> {
    tweens.map_values(|t: u64| TweenerAction::RemoveProgress { tween: t })
}

/// The entities of `tweens`, in order.
pub open spec fn tween_ids(tweens: Seq<TweenQuotients>) -> Seq<u64> {
    tweens.map_values(|q: TweenQuotients| q.tween)
}

/// The first of `ts` whose entity is `id`.
pub open spec fn find_tweener(ts: Seq<TweenerState>, id: u64) -> Option<TweenerState>
    decreases ts.len(),
{
    if ts.len() == 0 {
        None
    } else if ts[0].tweener == id {
        Some(ts[0])
    } else {
        find_tweener(ts.skip(1), id)
    }
}

/// The removals for the tweeners that completed at the previous run, listed
/// in `ids`: the tweens of each listed tweener found in `ts` whose timer is
/// still completed lose their progress, in order. A listed tweener that is no
/// longer completed, or is not found, is passed over.
pub open spec fn completed_removals(ts: Seq<TweenerState>, ids: Seq<u64>) -> Seq<TweenerAction>
    decreases ids.len(),
{
    if ids.len() == 0 {
        Seq::empty()
    } else {
        let acts = completed_removals(ts, ids.drop_last());
        match find_tweener(ts, ids.last()) {
            Some(t) => if t.completed {
                acts + progress_removals(tween_ids(t.tweens@))
            } else {
                acts
            },
            None => acts,
        }
    }
}

/// The repeat style of the tick that brought `t` to its current time: its
/// timer's, where the tick went past an end.
pub open spec fn repeated_style(t: TweenerState) -> Option<RepeatStyle> {
    if t.period_crossed {
        t.repeat_style
    } else {
        None
    }
}

/// The direction in which the tick of `t` moved: from the order of the two
/// times where the tick did not repeat, else the timer's direction.
pub open spec fn tick_direction_of(t: TweenerState) -> AnimationDirection {
    if repeated_style(t) is None {
        match t.time_order {
            TimeOrder::Earlier => AnimationDirection::Forward,
            TimeOrder::Same => t.direction,
            TimeOrder::Later => AnimationDirection::Backward,
        }
    } else {
        t.direction
    }
}

/// What a tick of `t` does to its tween `q`: set its progress where the tick
/// touches it, else remove it.
pub open spec fn tween_update(t: TweenerState, q: TweenQuotients) -> TweenerAction {
    match visible_spec(tick_direction_of(t), q.previous, q.now, repeated_style(t)) {
        Some(u) => TweenerAction::SetProgress { tween: q.tween, use_time: u },
        None => TweenerAction::RemoveProgress { tween: q.tween },
    }
}

/// The updates of the tweeners `ts`, in order, and the tweeners that are
/// completed after them: a tweener whose timer is completed is left alone;
/// any other updates each of its tweens, then collapses its timer.
pub open spec fn tweener_updates(ts: Seq<TweenerState>) -> (Seq<TweenerAction>, Seq<u64>)
    decreases ts.len(),
{
    if ts.len() == 0 {
        (Seq::empty(), Seq::empty())
    } else {
        let (acts, done) = tweener_updates(ts.drop_last());
        let t = ts.last();
        if t.completed {
            (acts, done)
        } else {
            (
                acts + t.tweens@.map_values(|q: TweenQuotients| tween_update(t, q)).push(
                    TweenerAction::Collapse { tweener: t.tweener },
                ),
                if t.completed_after_collapse {
                    done.push(t.tweener)
                } else {
                    done
                },
            )
        }
    }
}

/// One run of the tweener system over the tweeners `ts`, given the tweeners
/// that completed at the previous run (`just_completed`) and the tweens of
/// the tweeners newly marked to be skipped (`skipped`): the actions, and the
/// tweeners completed at this run. The run first clears the progress of the
/// tweeners that completed, then that of the skipped tweens, then updates
/// every tweener.
pub open spec fn tweener_run(just_completed: Seq<u64>, ts: Seq<TweenerState>, skipped: Seq<u64>) -> (
    Seq<TweenerAction>,
    Seq<u64>,
) {
    let (updates, done) = tweener_updates(ts);
    (completed_removals(ts, just_completed) + progress_removals(skipped) + updates, done)
}

/// The index of the first of `ts` whose entity is `id`.
fn find_tweener_index(ts: &Vec<TweenerState>, id: u64) -> (r: Option<usize>)
    ensures
        match r {
            Some(i) => i < ts.len() && find_tweener(ts@, id) == Some(ts@[i as int]),
            None => find_tweener(ts@, id) is None,
        },
{
    let mut i: usize = 0;
    proof {
        assert(ts@.skip(0) == ts@);
    }
    while i < ts.len()
        invariant
            i <= ts.len(),
            find_tweener(ts@, id) == find_tweener(ts@.skip(i as int), id),
        decreases ts.len() - i,
    {
        proof {
            assert(ts@.skip(i as int).skip(1) == ts@.skip(i as int + 1));
        }
        if ts[i].tweener == id {
            return Some(i);
        }
        i += 1;
    }
    None
}

/// Append the removals of the progress of each of `tweens` to `actions`.
fn push_progress_removals(actions: &mut Vec<TweenerAction>, tweens: &Vec<u64>)
    ensures
        final(actions)@ == old(actions)@ + progress_removals(tweens@),
{
    let mut i: usize = 0;
    while i < tweens.len()
        invariant
            i <= tweens.len(),
            actions@ == old(actions)@ + progress_removals(tweens@.take(i as int)),
        decreases tweens.len() - i,
    {
        proof {
            assert(progress_removals(tweens@.take(i as int + 1)) == progress_removals(tweens@.take(i as int)).push(
                TweenerAction::RemoveProgress { tween: tweens@[i as int] },
            ));
        }
        actions.push(TweenerAction::RemoveProgress { tween: tweens[i] });
        i += 1;
    }
    proof {
        assert(tweens@.take(tweens@.len() as int) == tweens@);
    }
}

/// Append the removals of the progress of each tween of `tweens` to `actions`.
fn push_tween_removals(actions: &mut Vec<TweenerAction>, tweens: &Vec<TweenQuotients>)
    ensures
        final(actions)@ == old(actions)@ + progress_removals(tween_ids(tweens@)),
{
    let mut i: usize = 0;
    while i < tweens.len()
        invariant
            i <= tweens.len(),
            actions@ == old(actions)@ + progress_removals(tween_ids(tweens@.take(i as int))),
        decreases tweens.len() - i,
    {
        proof {
            assert(progress_removals(tween_ids(tweens@.take(i as int + 1))) == progress_removals(
                tween_ids(tweens@.take(i as int)),
            ).push(TweenerAction::RemoveProgress { tween: tweens@[i as int].tween }));
        }
        actions.push(TweenerAction::RemoveProgress { tween: tweens[i].tween });
        i += 1;
    }
    proof {
        assert(tweens@.take(tweens@.len() as int) == tweens@);
    }
}

/// Append the updates of the tweens of `t` and the collapse of its timer to
/// `actions`.
fn push_tweener_updates(actions: &mut Vec<TweenerAction>, t: &TweenerState)
    ensures
        final(actions)@ == old(actions)@ + t.tweens@.map_values(|q: TweenQuotients| tween_update(*t, q)).push(
            TweenerAction::Collapse { tweener: t.tweener },
        ),
{
    let repeated = if t.period_crossed {
        t.repeat_style
    } else {
        None
    };
    let direction = match repeated {
        None => match t.time_order {
            TimeOrder::Earlier => AnimationDirection::Forward,
            TimeOrder::Same => t.direction,
            TimeOrder::Later => AnimationDirection::Backward,
        },
        Some(_) => t.direction,
    };
    let mut i: usize = 0;
    while i < t.tweens.len()
        invariant
            i <= t.tweens.len(),
            repeated == repeated_style(*t),
            direction == tick_direction_of(*t),
            actions@ == old(actions)@ + t.tweens@.take(i as int).map_values(|q: TweenQuotients| tween_update(*t, q)),
        decreases t.tweens.len() - i,
    {
        let q = t.tweens[i];
        proof {
            assert(t.tweens@.take(i as int + 1).map_values(|q: TweenQuotients| tween_update(*t, q))
                == t.tweens@.take(i as int).map_values(|q: TweenQuotients| tween_update(*t, q)).push(
                tween_update(*t, q),
            ));
        }
        match tween_visible(direction, q.previous, q.now, repeated) {
            Some(u) => actions.push(TweenerAction::SetProgress { tween: q.tween, use_time: u }),
            None => actions.push(TweenerAction::RemoveProgress { tween: q.tween }),
        }
        i += 1;
    }
    proof {
        assert(t.tweens@.take(t.tweens@.len() as int) == t.tweens@);
    }
    actions.push(TweenerAction::Collapse { tweener: t.tweener });
}

/// The tweener system: the actions of [`tweener_run`] for the tweeners
/// `tweeners`, the tweeners completed at the previous run (`just_completed`)
/// and the tweens of the tweeners newly marked to be skipped (`skipped`).
/// `just_completed` becomes the list of the tweeners completed at this run.
pub fn tweener_system(
    just_completed: &mut Vec<u64>,
    tweeners: &Vec<TweenerState>,
    skipped: &Vec<u64>,
) -> (r: Vec<TweenerAction>)
    ensures
        r@ == tweener_run(old(just_completed)@, tweeners@, skipped@).0,
        final(just_completed)@ == tweener_run(old(just_completed)@, tweeners@, skipped@).1,
{
    let mut actions: Vec<TweenerAction> = Vec::new();
    let mut i: usize = 0;
    while i < just_completed.len()
        invariant
            i <= just_completed.len(),
            actions@ == completed_removals(tweeners@, just_completed@.take(i as int)),
        decreases just_completed.len() - i,
    {
        proof {
            assert(just_completed@.take(i as int + 1).drop_last() == just_completed@.take(i as int));
        }
        match find_tweener_index(tweeners, just_completed[i]) {
            None => {},
            Some(k) => {
                if tweeners[k].completed {
                    push_tween_removals(&mut actions, &tweeners[k].tweens);
                }
            },
        }
        i += 1;
    }
    proof {
        assert(just_completed@.take(just_completed@.len() as int) == just_completed@);
    }
    push_progress_removals(&mut actions, skipped);
    let mut done: Vec<u64> = Vec::new();
    let ghost before = actions@;
    let mut j: usize = 0;
    while j < tweeners.len()
        invariant
            j <= tweeners.len(),
            actions@ == before + tweener_updates(tweeners@.take(j as int)).0,
            done@ == tweener_updates(tweeners@.take(j as int)).1,
        decreases tweeners.len() - j,
    {
        proof {
            assert(tweeners@.take(j as int + 1).drop_last() == tweeners@.take(j as int));
        }
        let t = &tweeners[j];
        if !t.completed {
            let ghost mid = actions@;
            push_tweener_updates(&mut actions, t);
            proof {
                assert(actions@ == before + tweener_updates(tweeners@.take(j as int + 1)).0);
            }
            if t.completed_after_collapse {
                done.push(t.tweener);
            }
        }
        j += 1;
    }
    proof {
        assert(tweeners@.take(tweeners@.len() as int) == tweeners@);
    }
    *just_completed = done;
    actions
}

/// A span tweener that is not marked to be skipped, as the span tweener
/// system sees it.
#[derive(Debug, Clone)]
pub struct SpanTweenerState {
    /// The tweener's entity.
    pub tweener: u64,
    /// Whether its timer is completed.
    pub completed: bool,
    /// The timer's elapsed time.
    pub elasped: Elasped,
    /// The timer's direction.
    pub direction: AnimationDirection,
    /// Its tweens with their spans: itself where it has a span, then those of
    /// its children that have one and are not tweeners themselves, in order.
    pub tweens: Vec<(u64, TimeSpan)>,
}

/// What the span tweener system does.
#[derive(Debug, Clone, Copy, PartialEq, Eq, Structural)]
pub enum SpanTweenerAction {
    /// Give `tween` the progress `progress`.
    SetProgress {
        #[allow(missing_docs)]
        tween: u64,
        #[allow(missing_docs)]
        progress: SpanProgress,
    },
    /// Bring the previous time of the timer of `tweener` up to its current one.
    Collapse {
        #[allow(missing_docs)]
        tweener: u64,
    },
}

/// A span tweener action as plain values.
pub enum SpanActionView {
    /// The tween and its progress.
    SetProgress(u64, ProgressView),
    /// The tweener.
    Collapse(u64),
}

impl View for SpanTweenerAction {
    type V = SpanActionView;

    open spec fn view(&self) -> SpanActionView {
        match *self {
            SpanTweenerAction::SetProgress { tween, progress } => SpanActionView::SetProgress(tween, progress@),
            SpanTweenerAction::Collapse { tweener } => SpanActionView::Collapse(tweener),
        }
    }
}

/// What a tick of the span tweener `t` does to its tween `tw`: give it the
/// progress of [`progress_spec`] for the timer's times, direction and repeat.
pub open spec fn span_tween_update(t: SpanTweenerState, tw: (u64, TimeSpan)) -> SpanActionView {
    SpanActionView::SetProgress(
        tw.0,
        progress_spec(
            tw.1.min_bound(),
            tw.1.max_bound(),
            t.elasped.now@,
            t.elasped.previous@,
            t.direction,
            t.elasped.repeat_style,
        ),
    )
}

/// The updates of the span tweeners `ts`, in order: a tweener whose timer is
/// completed is left alone; any other updates each of its tweens, then
/// collapses its timer.
pub open spec fn span_tweener_updates(ts: Seq<SpanTweenerState>) -> Seq<SpanActionView>
    decreases ts.len(),
{
    if ts.len() == 0 {
        Seq::empty()
    } else {
        let acts = span_tweener_updates(ts.drop_last());
        let t = ts.last();
        if t.completed {
            acts
        } else {
            acts + t.tweens@.map_values(|tw: (u64, TimeSpan)| span_tween_update(t, tw)).push(
                SpanActionView::Collapse(t.tweener),
            )
        }
    }
}

/// The plain values of `acts`.
pub open spec fn span_action_views(acts: Seq<SpanTweenerAction>) -> Seq<SpanActionView> {
    acts.map_values(|a: SpanTweenerAction| a@)
}

/// The span tweener system: the actions of [`span_tweener_updates`] for the
/// span tweeners `tweeners`.
pub fn span_tweener_system(tweeners: &Vec<SpanTweenerState>) -> (r: Vec<SpanTweenerAction>)
    ensures
        span_action_views(r@) == span_tweener_updates(tweeners@),
{
    let mut actions: Vec<SpanTweenerAction> = Vec::new();
    let mut j: usize = 0;
    while j < tweeners.len()
        invariant
            j <= tweeners.len(),
            span_action_views(actions@) == span_tweener_updates(tweeners@.take(j as int)),
        decreases tweeners.len() - j,
    {
        proof {
            assert(tweeners@.take(j as int + 1).drop_last() == tweeners@.take(j as int));
        }
        let t = &tweeners[j];
        if !t.completed {
            let ghost before = actions@;
            let mut i: usize = 0;
            while i < t.tweens.len()
                invariant
                    i <= t.tweens.len(),
                    span_action_views(actions@) == span_action_views(before) + t.tweens@.take(i as int).map_values(
                        |tw: (u64, TimeSpan)| span_tween_update(*t, tw),
                    ),
                decreases t.tweens.len() - i,
            {
                let (tween, span) = t.tweens[i];
                let progress = span_tween_progress(
                    &span,
                    t.elasped.now,
                    t.elasped.previous,
                    t.direction,
                    t.elasped.repeat_style,
                );
                let ghost prev = actions@;
                actions.push(SpanTweenerAction::SetProgress { tween, progress });
                proof {
                    assert(span_action_views(actions@) == span_action_views(prev).push(
                        span_tween_update(*t, t.tweens@[i as int]),
                    ));
                    assert(t.tweens@.take(i as int + 1).map_values(|tw: (u64, TimeSpan)| span_tween_update(*t, tw))
                        == t.tweens@.take(i as int).map_values(|tw: (u64, TimeSpan)| span_tween_update(*t, tw)).push(
                        span_tween_update(*t, t.tweens@[i as int]),
                    ));
                }
                i += 1;
            }
            proof {
                assert(t.tweens@.take(t.tweens@.len() as int) == t.tweens@);
            }
            let ghost prev = actions@;
            actions.push(SpanTweenerAction::Collapse { tweener: t.tweener });
            proof {
                assert(span_action_views(actions@) == span_action_views(prev).push(SpanActionView::Collapse(t.tweener)));
            }
        }
        j += 1;
    }
    proof {
        assert(tweeners@.take(tweeners@.len() as int) == tweeners@);
    }
    actions
}

/// A tween whose span held both the previous and the current time of a
/// ticked tweener always gets progress, at the current time.
pub proof fn lemma_inside_tween_follows_the_timer(t: TweenerState, q: TweenQuotients)
    requires
        q.previous == DurationQuotient::Inside,
        q.now == DurationQuotient::Inside,
    ensures
        tween_update(t, q) == (TweenerAction::SetProgress { tween: q.tween, use_time: UseTime::Current }),
{
    lemma_inside_always_visible(tick_direction_of(t), repeated_style(t));
}

/// Whether `id` is a tweener of `ts` that was not completed and is
/// completed once collapsed.
pub open spec fn updated_and_completed(ts: Seq<TweenerState>, id: u64) -> bool {
    exists|k: int| 0 <= k < ts.len() && #[trigger] ts[k].tweener == id && !ts[k].completed && ts[k].completed_after_collapse
}

/// The tweeners listed as completed after a run are ones the run updated:
/// they were not completed before it, and are completed once collapsed.
pub proof fn lemma_completed_were_updated(ts: Seq<TweenerState>)
    ensures
        forall|i: int|
            0 <= i < tweener_updates(ts).1.len() ==> updated_and_completed(ts, #[trigger] tweener_updates(ts).1[i]),
    decreases ts.len(),
{
    if ts.len() > 0 {
        lemma_completed_were_updated(ts.drop_last());
        let done = tweener_updates(ts).1;
        let prev = tweener_updates(ts.drop_last()).1;
        assert forall|i: int| 0 <= i < done.len() implies updated_and_completed(ts, #[trigger] done[i]) by {
            if i < prev.len() {
                assert(done[i] == prev[i]);
                assert(updated_and_completed(ts.drop_last(), prev[i]));
                let k = choose|k: int|
                    0 <= k < ts.drop_last().len() && #[trigger] ts.drop_last()[k].tweener == prev[i] && !ts.drop_last()[k].completed
                        && ts.drop_last()[k].completed_after_collapse;
                assert(ts[k] == ts.drop_last()[k]);
                assert(ts[k].tweener == done[i]);
            } else {
                assert(ts[ts.len() - 1].tweener == done[i]);
            }
        }
    }
}

/// The progress a span tweener gives a non-empty tween never passes the
/// tween's length: its ratio stays within zero and one.
pub proof fn lemma_progress_within_length(
    span_min: TimeBound,
    span_max: TimeBound,
    now: nat,
    previous: nat,
    direction: AnimationDirection,
    repeat_style: Option<RepeatStyle>,
)
    requires
        span_min.dur() <= span_max.dur(),
    ensures
        progress_spec(span_min, span_max, now, previous, direction, repeat_style) matches ProgressView::Fraction(t, l)
            ==> 0 < l && t <= l,
{
    lemma_local_elasped_within_length(span_min, span_max, now, previous, direction, repeat_style);
}

/// Where a tween of no length stands once the tweener system set its
/// progress: its progress ratio is then infinite, on the side of its end or
/// of its start.
#[derive(Debug, Clone, Copy, PartialEq, Eq, Hash, Structural)]
pub enum EmptyTweenEnd {
    /// Past its end: the ratio is positive infinity.
    Complete,
    /// Before its start: the ratio is negative infinity.
    AtStart,
}

/// Where a tween of no length stands when the tweener system set its
/// progress to `use_time`, given how the tweener's current time compares
/// with the tween's start (`now_against_start`) and the timer's direction.
/// Its local time is the current time past its start, or zero where the
/// system chose the tween's start or end. A local time after the start is
/// complete, one before it at the start, and at the start itself the
/// direction decides: forward is complete, backward at the start.
pub open spec fn empty_tween_end_spec(
    use_time: UseTime,
    now_against_start: TimeOrder,
    direction: AnimationDirection,
) -> EmptyTweenEnd {
    let local = match use_time {
        UseTime::Current => now_against_start,
        _ => TimeOrder::Same,
    };
    match local {
        TimeOrder::Later => EmptyTweenEnd::Complete,
        TimeOrder::Earlier => EmptyTweenEnd::AtStart,
        TimeOrder::Same => if direction == AnimationDirection::Forward {
            EmptyTweenEnd::Complete
        } else {
            EmptyTweenEnd::AtStart
        },
    }
}

/// Where a tween of no length stands: see [`empty_tween_end_spec`].
pub fn empty_tween_end(
    use_time: UseTime,
    now_against_start: TimeOrder,
    direction: AnimationDirection,
) -> (r: EmptyTweenEnd)
    ensures
        r == empty_tween_end_spec(use_time, now_against_start, direction),
{
    let local = match use_time {
        UseTime::Current => now_against_start,
        _ => TimeOrder::Same,
    };
    match local {
        TimeOrder::Later => EmptyTweenEnd::Complete,
        TimeOrder::Earlier => EmptyTweenEnd::AtStart,
        TimeOrder::Same => match direction {
            AnimationDirection::Forward => EmptyTweenEnd::Complete,
            AnimationDirection::Backward => EmptyTweenEnd::AtStart,
        },
    }
}

/// Whether a tweener's timer is ticked: it is neither paused nor completed.
pub fn tweener_ticks(paused: bool, completed: bool) -> (r: bool)
    ensures
        r == (!paused && !completed),
{
    !paused && !completed
}

/// Whether a tweener reports that it ended after a tick: it does when the
/// tick completed its timer (`completed`), and when it repeated, that is,
/// when the tick left the timer's current period below zero
/// (`period_below_zero`) or at one or more (`period_reached_end`) past the
/// end it ran towards. A ping-pong timer has already turned: it repeated when
/// it now runs forward from below zero or backward from the end.
pub open spec fn ended_spec(
    direction: AnimationDirection,
    repeat_style: Option<RepeatStyle>,
    period_below_zero: bool,
    period_reached_end: bool,
    completed: bool,
) -> bool {
    completed || match repeat_style {
        Some(RepeatStyle::PingPong) => (direction == AnimationDirection::Forward && period_below_zero) || (
        direction == AnimationDirection::Backward && period_reached_end),
        _ => (direction == AnimationDirection::Backward && period_below_zero) || (direction
            == AnimationDirection::Forward && period_reached_end),
    }
}

/// Whether a tweener reports that it ended after a tick: see [`ended_spec`].
pub fn tweener_ended(
    direction: AnimationDirection,
    repeat_style: Option<RepeatStyle>,
    period_below_zero: bool,
    period_reached_end: bool,
    completed: bool,
) -> (r: bool)
    ensures
        r == ended_spec(direction, repeat_style, period_below_zero, period_reached_end, completed),
        completed ==> r,
        repeat_style != Some(RepeatStyle::PingPong) && direction == AnimationDirection::Forward && period_reached_end ==> r,
        repeat_style != Some(RepeatStyle::PingPong) && direction == AnimationDirection::Backward && period_below_zero ==> r,
        repeat_style == Some(RepeatStyle::PingPong) && direction == AnimationDirection::Forward && period_below_zero ==> r,
        repeat_style == Some(RepeatStyle::PingPong) && direction == AnimationDirection::Backward && period_reached_end ==> r,
        !completed && !period_below_zero && !period_reached_end ==> !r,
{
    if completed {
        return true;
    }
    match repeat_style {
        Some(RepeatStyle::PingPong) => match direction {
            AnimationDirection::Forward => period_below_zero,
            AnimationDirection::Backward => period_reached_end,
        },
        _ => match direction {
            AnimationDirection::Backward => period_below_zero,
            AnimationDirection::Forward => period_reached_end,
        },
    }
}

/// A tick that went past no end is no repeat: each tween either loses its
/// progress or is set to the current time, never to its start or end, and a
/// tween that the timer stayed before or after loses its progress.
pub proof fn lemma_no_crossing_no_repeat(t: TweenerState, q: TweenQuotients)
    requires
        !t.period_crossed,
    ensures
        tween_update(t, q) == (TweenerAction::RemoveProgress { tween: q.tween }) || tween_update(t, q) == (
        TweenerAction::SetProgress { tween: q.tween, use_time: UseTime::Current }),
        q.previous == q.now && q.now != DurationQuotient::Inside ==> tween_update(t, q) == (
        TweenerAction::RemoveProgress { tween: q.tween }),
{
}

/// A tweener reports that it ended exactly when its tick completed it or
/// repeated: outside ping-pong, when a forward tick reached one period or
/// more past the end or a backward one went below zero; for a ping-pong,
/// which has already turned, when it now runs forward from below zero or
/// backward from one period or more. A tick that neither completed nor went
/// past an end reports nothing.
pub proof fn lemma_ended_reports(
    direction: AnimationDirection,
    repeat_style: Option<RepeatStyle>,
    period_below_zero: bool,
    period_reached_end: bool,
    completed: bool,
)
    ensures
        completed ==> ended_spec(direction, repeat_style, period_below_zero, period_reached_end, completed),
        repeat_style != Some(RepeatStyle::PingPong) && direction == AnimationDirection::Forward && period_reached_end
            ==> ended_spec(direction, repeat_style, period_below_zero, period_reached_end, completed),
        repeat_style != Some(RepeatStyle::PingPong) && direction == AnimationDirection::Backward && period_below_zero
            ==> ended_spec(direction, repeat_style, period_below_zero, period_reached_end, completed),
        repeat_style == Some(RepeatStyle::PingPong) && direction == AnimationDirection::Forward && period_below_zero
            ==> ended_spec(direction, repeat_style, period_below_zero, period_reached_end, completed),
        repeat_style == Some(RepeatStyle::PingPong) && direction == AnimationDirection::Backward && period_reached_end
            ==> ended_spec(direction, repeat_style, period_below_zero, period_reached_end, completed),
        !completed && !period_below_zero && !period_reached_end ==> !ended_spec(
            direction,
            repeat_style,
            period_below_zero,
            period_reached_end,
            completed,
        ),
{
}

} // verus!
