use bevy_tween::duration::Duration;
use bevy_tween::player::{duration_rem, neg_duration_rem, Elasped, TweenPlayerState};
use bevy_tween::repeat::{AnimationDirection, Repeat, RepeatStyle};

fn secs(s: u64) -> Duration {
    Duration::from_secs(s)
}

fn now(p: &TweenPlayerState) -> Duration {
    p.elasped().now
}

#[test]
fn repeat_counters() {
    assert_eq!(Repeat::infinitely(), Repeat::Infinitely);
    assert_eq!(Repeat::infinitely_counted(), Repeat::InfinitelyCounted { times_repeated: 0 });
    let mut r = Repeat::times(2);
    assert_eq!(r, Repeat::Times { times: 2, times_repeated: 0 });
    assert!(r.try_advance_counter());
    assert!(r.try_advance_counter());
    assert_eq!(r, Repeat::Times { times: 2, times_repeated: 2 });
    assert!(!r.try_advance_counter());
    assert_eq!(r, Repeat::Times { times: 2, times_repeated: 2 });
    let mut c = Repeat::infinitely_counted();
    assert!(c.try_advance_counter());
    assert_eq!(c, Repeat::InfinitelyCounted { times_repeated: 1 });
    let mut i = Repeat::infinitely();
    assert!(i.try_advance_counter());
    assert_eq!(i, Repeat::Infinitely);
    assert_eq!(RepeatStyle::default(), RepeatStyle::WrapAround);
    assert_eq!(AnimationDirection::default(), AnimationDirection::Forward);
}

#[test]
fn player_new_and_setters() {
    let mut p = TweenPlayerState::new(secs(5));
    assert_eq!(p.duration_limit, secs(5));
    assert!(!p.paused);
    assert_eq!(p.elasped(), Elasped::new(Duration::zero()));
    p.set_duration(secs(3));
    p.set_paused(true);
    p.set_direction(AnimationDirection::Backward);
    p.set_repeat(Some(Repeat::times(1)));
    p.set_repeat_style(Some(RepeatStyle::PingPong));
    assert_eq!(p.duration_limit, secs(3));
    assert!(p.paused);
    assert_eq!(p.direction, AnimationDirection::Backward);
    assert_eq!(p.repeat, Some(Repeat::times(1)));
    assert_eq!(p.repeat_style, Some(RepeatStyle::PingPong));
}

#[test]
fn player_forward_stops_at_length() {
    let mut p = TweenPlayerState::new(secs(5));
    p.tick(secs(2));
    assert_eq!(now(&p), secs(2));
    assert_eq!(p.elasped().previous, Duration::zero());
    p.tick(secs(4));
    assert_eq!(now(&p), secs(5));
    assert_eq!(p.elasped().previous, secs(2));
    // at the end nothing changes any more
    p.tick(secs(1));
    assert_eq!(now(&p), secs(5));
    assert_eq!(p.elasped().previous, secs(2));
}

#[test]
fn player_paused_does_not_move() {
    let mut p = TweenPlayerState::new(secs(5));
    p.set_paused(true);
    p.tick(secs(2));
    assert_eq!(now(&p), Duration::zero());
}

#[test]
fn player_backward_stops_at_zero() {
    let mut p = TweenPlayerState::new(secs(5));
    p.tick(secs(4));
    p.set_direction(AnimationDirection::Backward);
    p.tick(secs(1));
    assert_eq!(now(&p), secs(3));
    p.tick(secs(10));
    assert_eq!(now(&p), Duration::zero());
    assert_eq!(p.elasped().previous, secs(3));
    p.tick(secs(1));
    assert_eq!(now(&p), Duration::zero());
    assert_eq!(p.elasped().previous, secs(3));
}

#[test]
fn player_wraps_around_forward() {
    let mut p = TweenPlayerState::new(secs(5));
    p.set_repeat(Some(Repeat::infinitely()));
    p.tick(secs(4));
    assert_eq!(now(&p), secs(4));
    assert_eq!(p.elasped().repeat_style, None);
    p.tick(secs(2));
    assert_eq!(now(&p), secs(1));
    assert_eq!(p.elasped().previous, secs(4));
    assert_eq!(p.elasped().repeat_style, Some(RepeatStyle::WrapAround));
    // reaching the length exactly wraps to zero
    p.tick(secs(4));
    assert_eq!(now(&p), Duration::zero());
}

#[test]
fn player_wraps_around_backward() {
    let mut p = TweenPlayerState::new(secs(5));
    p.set_repeat(Some(Repeat::infinitely()));
    p.set_direction(AnimationDirection::Backward);
    p.tick(secs(1));
    assert_eq!(now(&p), secs(4));
    assert_eq!(p.elasped().repeat_style, Some(RepeatStyle::WrapAround));
    p.tick(secs(3));
    assert_eq!(now(&p), secs(1));
    assert_eq!(p.elasped().repeat_style, None);
}

#[test]
fn player_exhausted_repeat_stops_at_the_end() {
    let mut p = TweenPlayerState::new(secs(5));
    p.set_repeat(Some(Repeat::times(0)));
    p.tick(secs(6));
    assert_eq!(now(&p), secs(5));
    assert_eq!(p.elasped().repeat_style, None);
    // each repeat is counted in the state, and the repeats run out
    let mut q = TweenPlayerState::new(secs(5));
    q.set_repeat(Some(Repeat::times(1)));
    q.tick(secs(6));
    assert_eq!(now(&q), secs(1));
    assert_eq!(q.repeat, Some(Repeat::Times { times: 1, times_repeated: 1 }));
    q.tick(secs(6));
    assert_eq!(now(&q), secs(5));
    assert_eq!(q.repeat, Some(Repeat::Times { times: 1, times_repeated: 1 }));
}

#[test]
fn player_single_repeat_of_one_second() {
    let mut s = TweenPlayerState::new(secs(1));
    s.set_repeat(Some(Repeat::times(1)));
    s.set_repeat_style(Some(RepeatStyle::WrapAround));
    s.tick(secs(1));
    assert_eq!(now(&s), Duration::zero());
    s.tick(secs(1));
    assert_eq!(now(&s), secs(1));
    assert_eq!(s.repeat, Some(Repeat::Times { times: 1, times_repeated: 1 }));
}

#[test]
fn player_ping_pong() {
    let mut p = TweenPlayerState::new(secs(5));
    p.set_repeat(Some(Repeat::infinitely()));
    p.set_repeat_style(Some(RepeatStyle::PingPong));
    p.tick(secs(3));
    assert_eq!(now(&p), secs(3));
    assert_eq!(p.direction, AnimationDirection::Forward);
    p.tick(secs(3));
    assert_eq!(now(&p), secs(4));
    assert_eq!(p.direction, AnimationDirection::Backward);
    assert_eq!(p.elasped().repeat_style, Some(RepeatStyle::PingPong));
    p.tick(secs(3));
    assert_eq!(now(&p), secs(1));
    assert_eq!(p.direction, AnimationDirection::Backward);
    p.tick(secs(3));
    assert_eq!(now(&p), secs(2));
    assert_eq!(p.direction, AnimationDirection::Forward);
}

#[test]
fn player_ping_pong_exhausted_stops_at_the_end() {
    let mut p = TweenPlayerState::new(secs(5));
    p.set_repeat(Some(Repeat::times(0)));
    p.set_repeat_style(Some(RepeatStyle::PingPong));
    p.tick(secs(2));
    p.tick(secs(4));
    assert_eq!(now(&p), secs(5));
    // the previous time is the time before the tick
    assert_eq!(p.elasped().previous, secs(2));
    assert_eq!(p.direction, AnimationDirection::Forward);
}

#[test]
fn remainders() {
    assert_eq!(duration_rem(secs(7), secs(5)), secs(2));
    assert_eq!(neg_duration_rem(secs(1), secs(5)), secs(4));
    assert_eq!(neg_duration_rem(secs(5), secs(5)), Duration::zero());
    assert_eq!(neg_duration_rem(secs(6), secs(5)), secs(4));
}
