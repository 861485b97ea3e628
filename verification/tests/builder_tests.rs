use bevy_tween::builder::{AnimationBuilder, TweensBuilder};
use bevy_tween::combinator::{backward, event, event_at, event_for, forward, go, tween, ParallelBranches};
use bevy_tween::duration::Duration;
use bevy_tween::repeat::{AnimationDirection, RepeatStyle};
use bevy_tween::timer::TimerRepeat;
use bevy_tween::span::TimeBound;

fn secs(s: u64) -> Duration {
    Duration::from_secs(s)
}

#[test]
fn position_moves() {
    let mut pos = secs(1);
    forward(&mut pos, secs(2));
    assert_eq!(pos, secs(3));
    backward(&mut pos, secs(1));
    assert_eq!(pos, secs(2));
    backward(&mut pos, secs(10));
    assert_eq!(pos, Duration::zero());
    go(&mut pos, secs(7));
    assert_eq!(pos, secs(7));
    // moving back by what was just moved forward returns
    forward(&mut pos, secs(3));
    backward(&mut pos, secs(3));
    assert_eq!(pos, secs(7));
}

#[test]
fn tweens_in_sequence_are_adjacent() {
    let mut pos = Duration::zero();
    let a = tween(&mut pos, secs(1));
    let b = tween(&mut pos, secs(2));
    assert_eq!(a.min(), TimeBound::Inclusive(Duration::zero()));
    assert_eq!(a.max(), TimeBound::Exclusive(secs(1)));
    assert_eq!(b.min(), TimeBound::Inclusive(secs(1)));
    assert_eq!(b.max(), TimeBound::Exclusive(secs(3)));
    assert_eq!(pos, secs(3));
}

#[test]
fn instant_events_do_not_move_lasting_ones_do() {
    let mut pos = secs(2);
    let e = event(&pos);
    assert_eq!(e.min(), TimeBound::Inclusive(secs(2)));
    assert_eq!(e.max(), TimeBound::Inclusive(secs(2)));
    let e = event_at(secs(5));
    assert_eq!(e.min(), TimeBound::Inclusive(secs(5)));
    assert_eq!(e.max(), TimeBound::Inclusive(secs(5)));
    assert_eq!(pos, secs(2));
    let e = event_for(&mut pos, secs(3));
    assert_eq!(e.min(), TimeBound::Inclusive(secs(2)));
    assert_eq!(e.max(), TimeBound::Exclusive(secs(5)));
    // the position is at the end of the event
    assert_eq!(pos, secs(5));
}

#[test]
fn parallel_takes_the_furthest() {
    let mut pos = secs(1);
    let mut p = ParallelBranches::new(pos);
    forward(&mut pos, secs(3));
    p.branch_done(&mut pos);
    assert_eq!(pos, secs(1));
    forward(&mut pos, secs(1));
    p.branch_done(&mut pos);
    p.finish(&mut pos);
    assert_eq!(pos, secs(4));
    // branches that keep the position
    let mut q = ParallelBranches::new(secs(2));
    q.branch_reached(&secs(1));
    assert_eq!(q.furthest, secs(2));
    q.branch_reached(&secs(6));
    assert_eq!(q.furthest, secs(6));
}

#[test]
fn animation_builder_repeat_settings() {
    let b = AnimationBuilder::new();
    assert!(b.time_runner().is_none());
    let r = b.repeat(TimerRepeat::times(3)).time_runner.unwrap();
    assert_eq!(r.repeat, Some((TimerRepeat::times(3), RepeatStyle::WrapAround)));
    let r = b.repeat_style(RepeatStyle::PingPong).time_runner.unwrap();
    assert_eq!(r.repeat, Some((TimerRepeat::Infinitely, RepeatStyle::PingPong)));
    let r = b.repeat(TimerRepeat::times(3)).repeat_style(RepeatStyle::PingPong).time_runner.unwrap();
    assert_eq!(r.repeat, Some((TimerRepeat::times(3), RepeatStyle::PingPong)));
    let r = b.repeat_style(RepeatStyle::PingPong).repeat(TimerRepeat::times(3)).time_runner.unwrap();
    assert_eq!(r.repeat, Some((TimerRepeat::times(3), RepeatStyle::PingPong)));
}

#[test]
fn animation_builder_other_settings() {
    let b = AnimationBuilder::new().disabled(true);
    assert!(b.skipped);
    assert!(b.time_runner.unwrap().paused);
    let b = AnimationBuilder::new().paused(true).skipped(false).direction(AnimationDirection::Backward);
    let r = b.time_runner.unwrap();
    assert!(r.paused);
    assert_eq!(r.direction, AnimationDirection::Backward);
    assert!(!b.skipped);
    // the content's length unless one was chosen
    let runner = AnimationBuilder::new().finished_runner(secs(3));
    assert_eq!(runner.length, secs(3));
    assert!(!runner.paused);
    assert_eq!(runner.repeat, None);
    let runner = AnimationBuilder::new().length(secs(9)).finished_runner(secs(3));
    assert_eq!(runner.length, secs(9));
    let span = AnimationBuilder::tween_here_span(secs(2));
    assert_eq!(span.min(), TimeBound::Inclusive(Duration::zero()));
    assert_eq!(span.max(), TimeBound::Exclusive(secs(2)));
}

#[test]
fn tweens_builder_offsets() {
    let mut b = TweensBuilder::new();
    assert_eq!(b.offset(), Duration::zero());
    let s = b.tween(secs(2));
    assert_eq!(s.max(), TimeBound::Exclusive(secs(2)));
    assert_eq!(b.offset(), secs(2));
    b.forward(secs(1));
    assert_eq!(b.offset(), secs(3));
    b.backward(secs(5));
    assert_eq!(b.offset(), Duration::zero());
    b.go(secs(4));
    let e = b.tween_event();
    assert_eq!(e.min(), TimeBound::Inclusive(secs(4)));
    assert_eq!(e.max(), TimeBound::Exclusive(secs(4)));
    assert_eq!(b.offset(), secs(4));
    let e = b.tween_event_for(secs(1));
    assert_eq!(e.max(), TimeBound::Exclusive(secs(5)));
    assert_eq!(b.offset(), secs(5));
    let mut stored = Duration::zero();
    b.store_offset(&mut stored);
    assert_eq!(stored, secs(5));
}
