use bevy_tween::duration::Duration;
use bevy_tween::repeat::{AnimationDirection, RepeatStyle};
use bevy_tween::span::TimeBound;
use bevy_tween::timer::{
    backward_triangle_wave_direction, can_tick_repeat, direction_after_tick, tick_repeat, timer_completed,
    triangle_wave_direction, TimerRepeat, TimerSettings,
};

use AnimationDirection::{Backward, Forward};

#[test]
fn triangle_directions() {
    assert_eq!(triangle_wave_direction(0), Forward);
    assert_eq!(triangle_wave_direction(1), Backward);
    assert_eq!(triangle_wave_direction(2), Forward);
    assert_eq!(triangle_wave_direction(-1), Backward);
    assert_eq!(triangle_wave_direction(-2), Forward);
    assert_eq!(backward_triangle_wave_direction(0), Backward);
    assert_eq!(backward_triangle_wave_direction(1), Forward);
    assert_eq!(backward_triangle_wave_direction(-1), Forward);
    assert_eq!(backward_triangle_wave_direction(-4), Backward);
}

#[test]
fn ping_pong_turns_the_direction() {
    assert_eq!(direction_after_tick(Forward, Some(RepeatStyle::PingPong), 1), Backward);
    assert_eq!(direction_after_tick(Forward, Some(RepeatStyle::PingPong), 2), Forward);
    assert_eq!(direction_after_tick(Backward, Some(RepeatStyle::PingPong), -1), Forward);
    assert_eq!(direction_after_tick(Forward, Some(RepeatStyle::WrapAround), 1), Forward);
    assert_eq!(direction_after_tick(Backward, None, 3), Backward);
}

#[test]
fn counted_repeat_moves_and_runs_out() {
    let mut repeat = Some((TimerRepeat::Times { times: 2, times_repeated: 0 }, RepeatStyle::WrapAround));
    assert_eq!(tick_repeat(Forward, &mut repeat, 1), Some(RepeatStyle::WrapAround));
    assert_eq!(repeat, Some((TimerRepeat::Times { times: 2, times_repeated: 1 }, RepeatStyle::WrapAround)));
    // three periods at once: only the one repeat left is used
    assert_eq!(tick_repeat(Forward, &mut repeat, 3), Some(RepeatStyle::WrapAround));
    assert_eq!(repeat, Some((TimerRepeat::Times { times: 2, times_repeated: 2 }, RepeatStyle::WrapAround)));
    // exhausted: no more repeats
    assert_eq!(tick_repeat(Forward, &mut repeat, 1), None);
    assert_eq!(repeat, Some((TimerRepeat::Times { times: 2, times_repeated: 2 }, RepeatStyle::WrapAround)));
    assert!(timer_completed(repeat, true));
    assert!(!timer_completed(repeat, false));
}

#[test]
fn backward_ticks_count_in_the_timer_direction() {
    let mut repeat = Some((TimerRepeat::InfinitelyCounted { times_repeated: 0 }, RepeatStyle::PingPong));
    // running backward, one period below the start counts as one repeat
    assert_eq!(tick_repeat(Backward, &mut repeat, -1), Some(RepeatStyle::PingPong));
    assert_eq!(repeat, Some((TimerRepeat::InfinitelyCounted { times_repeated: 1 }, RepeatStyle::PingPong)));
    // no whole period: nothing happens
    assert_eq!(tick_repeat(Backward, &mut repeat, 0), None);
    assert_eq!(repeat, Some((TimerRepeat::InfinitelyCounted { times_repeated: 1 }, RepeatStyle::PingPong)));
}

#[test]
fn without_repeat_nothing_repeats() {
    let mut repeat = None;
    assert_eq!(tick_repeat(Forward, &mut repeat, 1), None);
    assert_eq!(repeat, None);
    assert!(timer_completed(None, true));
    assert!(!timer_completed(Some((TimerRepeat::Infinitely, RepeatStyle::WrapAround)), true));
    let mut forever = Some((TimerRepeat::Infinitely, RepeatStyle::WrapAround));
    assert_eq!(tick_repeat(Forward, &mut forever, 5), Some(RepeatStyle::WrapAround));
    assert_eq!(forever, Some((TimerRepeat::Infinitely, RepeatStyle::WrapAround)));
}

#[test]
fn counted_down_repeat_can_move_back() {
    // a backward move of a counted-down repeat lowers its counter
    let mut repeat = Some((TimerRepeat::Times { times: 3, times_repeated: 2 }, RepeatStyle::WrapAround));
    assert_eq!(tick_repeat(Forward, &mut repeat, -1), Some(RepeatStyle::WrapAround));
    assert_eq!(repeat, Some((TimerRepeat::Times { times: 3, times_repeated: 1 }, RepeatStyle::WrapAround)));
}

#[test]
fn repeat_constructors_and_methods() {
    assert_eq!(TimerRepeat::infinitely(), TimerRepeat::Infinitely);
    assert_eq!(TimerRepeat::infinitely_counted(), TimerRepeat::InfinitelyCounted { times_repeated: 0 });
    let mut r = TimerRepeat::times(2);
    assert_eq!(r, TimerRepeat::Times { times: 2, times_repeated: 0 });
    assert!(!r.exhausted());
    assert_eq!(r.advance_counter_by(5), 2);
    assert!(r.exhausted());
    assert_eq!(r.advance_counter_by(1), 0);
    let mut c = TimerRepeat::infinitely_counted();
    assert_eq!(c.advance_counter_by(3), 3);
    assert_eq!(c, TimerRepeat::InfinitelyCounted { times_repeated: 3 });
    assert!(!c.exhausted());
}

#[test]
fn timer_settings() {
    let t = TimerSettings::new(Duration::from_secs(2));
    assert!(!t.paused);
    assert_eq!(t.length, Duration::from_secs(2));
    assert_eq!(t.speed_scale, Duration::from_secs(1));
    assert_eq!(t.direction, Forward);
    assert_eq!(t.repeat, None);
    let d = TimerSettings::default();
    assert_eq!(d.length, Duration::zero());
    let t = t.with_paused(true).with_direction(Backward);
    assert!(t.paused);
    assert_eq!(t.direction, Backward);
    let t = t.with_repeat_style(RepeatStyle::PingPong);
    assert_eq!(t.repeat, Some((TimerRepeat::Infinitely, RepeatStyle::PingPong)));
    let t = t.with_repeat(TimerRepeat::times(4));
    assert_eq!(t.repeat, Some((TimerRepeat::times(4), RepeatStyle::PingPong)));
    let t = t.without_repeat_style();
    assert_eq!(t.repeat, Some((TimerRepeat::times(4), RepeatStyle::WrapAround)));
    let t = t.without_repeat();
    assert_eq!(t.repeat, None);
    assert_eq!(t.without_repeat_style().repeat, None);
    let t = t.with_repeat(TimerRepeat::times(1));
    assert_eq!(t.repeat, Some((TimerRepeat::times(1), RepeatStyle::WrapAround)));
    let span = t.tween_here_span();
    assert_eq!(span.min(), TimeBound::Inclusive(Duration::zero()));
    assert_eq!(span.max(), TimeBound::Exclusive(Duration::from_secs(2)));
}

#[test]
fn wrap_around_two_times_tick_by_tick() {
    // a five-second timer repeating twice, ticked by four seconds: the whole
    // periods gone past after each tick are 0, 1, 1, 1
    let mut repeat = Some((TimerRepeat::times(2), RepeatStyle::WrapAround));
    assert_eq!(tick_repeat(Forward, &mut repeat, 0), None);
    assert_eq!(repeat.unwrap().0, TimerRepeat::Times { times: 2, times_repeated: 0 });
    assert_eq!(tick_repeat(Forward, &mut repeat, 1), Some(RepeatStyle::WrapAround));
    assert_eq!(repeat.unwrap().0, TimerRepeat::Times { times: 2, times_repeated: 1 });
    assert_eq!(tick_repeat(Forward, &mut repeat, 1), Some(RepeatStyle::WrapAround));
    assert_eq!(repeat.unwrap().0, TimerRepeat::Times { times: 2, times_repeated: 2 });
    // no repeat left: the timer stops at its end
    assert_eq!(tick_repeat(Forward, &mut repeat, 1), None);
    assert_eq!(repeat.unwrap().0, TimerRepeat::Times { times: 2, times_repeated: 2 });
}

#[test]
fn backward_wrap_around_two_times_tick_by_tick() {
    let mut repeat = Some((TimerRepeat::times(2), RepeatStyle::WrapAround));
    assert_eq!(tick_repeat(Backward, &mut repeat, -1), Some(RepeatStyle::WrapAround));
    assert_eq!(repeat.unwrap().0, TimerRepeat::Times { times: 2, times_repeated: 1 });
    assert_eq!(tick_repeat(Backward, &mut repeat, -1), Some(RepeatStyle::WrapAround));
    assert_eq!(repeat.unwrap().0, TimerRepeat::Times { times: 2, times_repeated: 2 });
    assert_eq!(tick_repeat(Backward, &mut repeat, -1), None);
}

#[test]
fn ping_pong_tick_by_tick() {
    // a five-second ping-pong timer ticked by three seconds
    let mut repeat = Some((TimerRepeat::Infinitely, RepeatStyle::PingPong));
    let mut direction = Forward;
    // 3s: period 0.6
    let r = tick_repeat(direction, &mut repeat, 0);
    direction = direction_after_tick(direction, r, 0);
    assert_eq!(direction, Forward);
    // 6s: period 1.2, turns back
    let r = tick_repeat(direction, &mut repeat, 1);
    direction = direction_after_tick(direction, r, 1);
    assert_eq!(direction, Backward);
    // 1s: period 0.2
    let r = tick_repeat(direction, &mut repeat, 0);
    direction = direction_after_tick(direction, r, 0);
    assert_eq!(direction, Backward);
    // -2s: period -0.4, turns forward
    let r = tick_repeat(direction, &mut repeat, -1);
    direction = direction_after_tick(direction, r, -1);
    assert_eq!(direction, Forward);
    // 5s: period 1.0, turns back
    let r = tick_repeat(direction, &mut repeat, 1);
    direction = direction_after_tick(direction, r, 1);
    assert_eq!(direction, Backward);
}

#[test]
fn only_a_repeating_backward_count_is_negated() {
    let forever = Some((TimerRepeat::Infinitely, RepeatStyle::WrapAround));
    assert!(can_tick_repeat(Forward, &forever, i32::MIN));
    assert!(!can_tick_repeat(Backward, &forever, i32::MIN));
    assert!(can_tick_repeat(Backward, &None, i32::MIN));
    let mut r = forever;
    assert_eq!(tick_repeat(Forward, &mut r, i32::MIN), Some(RepeatStyle::WrapAround));
    let mut none = None;
    assert_eq!(tick_repeat(Backward, &mut none, i32::MIN), None);
}
