use bevy_tween::duration::Duration;
use bevy_tween::player::Elasped;
use bevy_tween::repeat::{AnimationDirection, RepeatStyle};
use bevy_tween::span::{DurationQuotient, TimeSpan};
use bevy_tween::systems::{
    empty_tween_end, span_tweener_system, tweener_ended, EmptyTweenEnd, tweener_system, tweener_ticks, SpanTweenerAction,
    SpanTweenerState, TimeOrder, TweenQuotients, TweenerAction, TweenerState,
};
use bevy_tween::tweener::{SpanProgress, UseTime};

use AnimationDirection::{Backward, Forward};
use DurationQuotient::{After, Before, Inside};

fn q(tween: u64, previous: DurationQuotient, now: DurationQuotient) -> TweenQuotients {
    TweenQuotients { tween, previous, now }
}

fn running(tweener: u64, tweens: Vec<TweenQuotients>) -> TweenerState {
    TweenerState {
        tweener,
        completed: false,
        period_crossed: false,
        repeat_style: None,
        time_order: TimeOrder::Earlier,
        direction: Forward,
        completed_after_collapse: false,
        tweens,
    }
}

fn secs(s: u64) -> Duration {
    Duration::from_secs(s)
}

#[test]
fn tweener_updates_each_tween_then_collapses() {
    let t = running(1, vec![q(10, Before, Inside), q(11, Before, Before), q(12, Inside, After)]);
    let mut just_completed = vec![];
    let actions = tweener_system(&mut just_completed, &vec![t], &vec![]);
    assert_eq!(
        actions,
        vec![
            TweenerAction::SetProgress { tween: 10, use_time: UseTime::Current },
            TweenerAction::RemoveProgress { tween: 11 },
            TweenerAction::SetProgress { tween: 12, use_time: UseTime::Current },
            TweenerAction::Collapse { tweener: 1 },
        ]
    );
    assert!(just_completed.is_empty());
}

#[test]
fn tweener_direction_comes_from_the_times_without_repeat() {
    // the previous time is later: the tick moved backward whatever the timer says
    let mut t = running(1, vec![q(10, After, Inside), q(11, Before, Inside)]);
    t.time_order = TimeOrder::Later;
    let mut just_completed = vec![];
    let actions = tweener_system(&mut just_completed, &vec![t], &vec![]);
    assert_eq!(actions[0], TweenerAction::SetProgress { tween: 10, use_time: UseTime::Current });
    assert_eq!(actions[1], TweenerAction::RemoveProgress { tween: 11 });
}

#[test]
fn tweener_wrap_around_sets_the_end() {
    let mut t = running(1, vec![q(10, Inside, Before)]);
    t.period_crossed = true;
    t.repeat_style = Some(RepeatStyle::WrapAround);
    t.time_order = TimeOrder::Later;
    let mut just_completed = vec![];
    let actions = tweener_system(&mut just_completed, &vec![t], &vec![]);
    assert_eq!(actions[0], TweenerAction::SetProgress { tween: 10, use_time: UseTime::Max });
}

#[test]
fn completed_tweeners_are_left_alone_and_listed() {
    let mut done = running(1, vec![q(10, Inside, Inside)]);
    done.completed = true;
    let mut finishing = running(2, vec![q(20, Inside, After)]);
    finishing.completed_after_collapse = true;
    let mut just_completed = vec![];
    let actions = tweener_system(&mut just_completed, &vec![done, finishing], &vec![]);
    assert_eq!(
        actions,
        vec![
            TweenerAction::SetProgress { tween: 20, use_time: UseTime::Current },
            TweenerAction::Collapse { tweener: 2 },
        ]
    );
    assert_eq!(just_completed, vec![2]);
}

#[test]
fn previously_completed_tweeners_lose_progress() {
    let mut done = running(1, vec![q(10, After, After), q(11, After, After)]);
    done.completed = true;
    let mut just_completed = vec![1, 7];
    let actions = tweener_system(&mut just_completed, &vec![done], &vec![30]);
    assert_eq!(
        actions,
        vec![
            TweenerAction::RemoveProgress { tween: 10 },
            TweenerAction::RemoveProgress { tween: 11 },
            TweenerAction::RemoveProgress { tween: 30 },
        ]
    );
    assert!(just_completed.is_empty());
}

#[test]
fn a_listed_tweener_that_is_no_longer_completed_is_passed_over() {
    let mut done = running(1, vec![q(10, After, After)]);
    done.completed = true;
    let again = running(2, vec![q(20, Inside, Inside)]);
    let mut just_completed = vec![1, 2, 1];
    let actions = tweener_system(&mut just_completed, &vec![done, again], &vec![30]);
    assert_eq!(
        actions,
        vec![
            TweenerAction::RemoveProgress { tween: 10 },
            TweenerAction::RemoveProgress { tween: 10 },
            TweenerAction::RemoveProgress { tween: 30 },
            TweenerAction::SetProgress { tween: 20, use_time: UseTime::Current },
            TweenerAction::Collapse { tweener: 2 },
        ]
    );
    assert!(just_completed.is_empty());
}

#[test]
fn tick_and_end_decisions() {
    assert!(tweener_ticks(false, false));
    assert!(!tweener_ticks(true, false));
    assert!(!tweener_ticks(false, true));
    assert!(tweener_ended(Forward, None, false, true, false));
    assert!(!tweener_ended(Forward, None, true, false, false));
    assert!(tweener_ended(Backward, Some(RepeatStyle::WrapAround), true, false, false));
    assert!(tweener_ended(Forward, Some(RepeatStyle::PingPong), true, false, false));
    assert!(!tweener_ended(Forward, Some(RepeatStyle::PingPong), false, true, false));
    assert!(tweener_ended(Backward, Some(RepeatStyle::PingPong), false, true, false));
    // a backward timer that completes leaves its period at zero, and still ends
    assert!(tweener_ended(Backward, None, false, false, true));
    assert!(tweener_ended(Forward, Some(RepeatStyle::PingPong), false, false, true));
}

#[test]
fn span_tweener_gives_each_tween_its_progress() {
    let span = TimeSpan::try_from_range(secs(2), secs(4)).unwrap();
    let late = TimeSpan::try_from_range(secs(6), secs(8)).unwrap();
    let instant = TimeSpan::try_from_range_inclusive(secs(1), secs(1)).unwrap();
    let t = SpanTweenerState {
        tweener: 1,
        completed: false,
        elasped: Elasped { now: secs(3), previous: secs(2), repeat_style: None },
        direction: Forward,
        tweens: vec![(10, span), (11, late), (12, instant)],
    };
    let mut stopped = t.clone();
    stopped.tweener = 2;
    stopped.completed = true;
    let actions = span_tweener_system(&vec![t, stopped]);
    assert_eq!(
        actions,
        vec![
            SpanTweenerAction::SetProgress {
                tween: 10,
                progress: SpanProgress::Fraction { elapsed: secs(1), length: secs(2) }
            },
            SpanTweenerAction::SetProgress { tween: 11, progress: SpanProgress::Untouched },
            SpanTweenerAction::SetProgress { tween: 12, progress: SpanProgress::Untouched },
            SpanTweenerAction::Collapse { tweener: 1 },
        ]
    );
}

#[test]
fn span_tweener_instant_tween_crossed() {
    let instant = TimeSpan::try_from_range_inclusive(secs(1), secs(1)).unwrap();
    let t = SpanTweenerState {
        tweener: 1,
        completed: false,
        elasped: Elasped { now: secs(2), previous: secs(0), repeat_style: None },
        direction: Forward,
        tweens: vec![(12, instant)],
    };
    let actions = span_tweener_system(&vec![t]);
    assert_eq!(actions[0], SpanTweenerAction::SetProgress { tween: 12, progress: SpanProgress::Complete });
}

#[test]
fn inside_tweens_follow_the_timer_whatever_the_repeat() {
    for style in [None, Some(RepeatStyle::WrapAround), Some(RepeatStyle::PingPong)] {
        for order in [TimeOrder::Earlier, TimeOrder::Same, TimeOrder::Later] {
            let mut t = running(1, vec![q(10, Inside, Inside)]);
            t.period_crossed = true;
            t.repeat_style = style;
            t.time_order = order;
            let mut just_completed = vec![];
            let actions = tweener_system(&mut just_completed, &vec![t], &vec![]);
            assert_eq!(actions[0], TweenerAction::SetProgress { tween: 10, use_time: UseTime::Current });
        }
    }
}

#[test]
fn span_progress_never_passes_the_length() {
    let span = TimeSpan::try_from_range(secs(2), secs(4)).unwrap();
    let t = SpanTweenerState {
        tweener: 1,
        completed: false,
        elasped: Elasped { now: secs(9), previous: secs(3), repeat_style: None },
        direction: Forward,
        tweens: vec![(10, span)],
    };
    let actions = span_tweener_system(&vec![t]);
    assert_eq!(
        actions[0],
        SpanTweenerAction::SetProgress {
            tween: 10,
            progress: SpanProgress::Fraction { elapsed: secs(2), length: secs(2) }
        }
    );
}

#[test]
fn empty_tweens_stand_on_one_side() {
    // the timer past the start of a tween of no length: complete
    assert_eq!(empty_tween_end(UseTime::Current, TimeOrder::Later, Backward), EmptyTweenEnd::Complete);
    assert_eq!(empty_tween_end(UseTime::Current, TimeOrder::Earlier, Forward), EmptyTweenEnd::AtStart);
    // at the start, the direction decides
    assert_eq!(empty_tween_end(UseTime::Current, TimeOrder::Same, Forward), EmptyTweenEnd::Complete);
    assert_eq!(empty_tween_end(UseTime::Current, TimeOrder::Same, Backward), EmptyTweenEnd::AtStart);
    // set to its start or end: its local time is zero
    assert_eq!(empty_tween_end(UseTime::Max, TimeOrder::Earlier, Forward), EmptyTweenEnd::Complete);
    assert_eq!(empty_tween_end(UseTime::Min, TimeOrder::Later, Backward), EmptyTweenEnd::AtStart);
}
