use bevy_tween::duration::Duration;
use bevy_tween::repeat::{AnimationDirection, RepeatStyle};
use bevy_tween::span::{DurationQuotient, TimeBound, TimeSpan};
use bevy_tween::tweener::{
    span_tween_elasped, span_tween_progress, tween_visible, with_delay, SpanProgress, UseTime,
};

use AnimationDirection::{Backward, Forward};
use DurationQuotient::{After, Before, Inside};

fn secs(s: u64) -> Duration {
    Duration::from_secs(s)
}

#[test]
fn visible_without_repeat() {
    for d in [Forward, Backward] {
        assert_eq!(tween_visible(d, Inside, Inside, None), Some(UseTime::Current));
        assert_eq!(tween_visible(d, Before, Before, None), None);
        assert_eq!(tween_visible(d, After, After, None), None);
    }
    assert_eq!(tween_visible(Forward, Before, Inside, None), Some(UseTime::Current));
    assert_eq!(tween_visible(Forward, Inside, After, None), Some(UseTime::Current));
    assert_eq!(tween_visible(Forward, Before, After, None), Some(UseTime::Current));
    assert_eq!(tween_visible(Forward, After, Inside, None), None);
    assert_eq!(tween_visible(Backward, After, Inside, None), Some(UseTime::Current));
    assert_eq!(tween_visible(Backward, Inside, Before, None), Some(UseTime::Current));
    assert_eq!(tween_visible(Backward, Before, Inside, None), None);
}

#[test]
fn visible_wrap_around() {
    let w = Some(RepeatStyle::WrapAround);
    assert_eq!(tween_visible(Forward, Before, Before, w), Some(UseTime::Max));
    assert_eq!(tween_visible(Forward, Inside, Before, w), Some(UseTime::Max));
    assert_eq!(tween_visible(Forward, After, Before, w), None);
    assert_eq!(tween_visible(Forward, After, After, w), Some(UseTime::Current));
    assert_eq!(tween_visible(Backward, After, After, w), Some(UseTime::Min));
    assert_eq!(tween_visible(Backward, Inside, After, w), Some(UseTime::Min));
    assert_eq!(tween_visible(Backward, Before, After, w), None);
    assert_eq!(tween_visible(Backward, Before, Before, w), Some(UseTime::Current));
}

#[test]
fn visible_ping_pong() {
    let p = Some(RepeatStyle::PingPong);
    assert_eq!(tween_visible(Forward, Before, Before, p), None);
    assert_eq!(tween_visible(Backward, After, After, p), None);
    assert_eq!(tween_visible(Forward, After, After, p), Some(UseTime::Current));
    assert_eq!(tween_visible(Backward, Before, Before, p), Some(UseTime::Current));
}

#[test]
fn visible_mirror_law_on_all_cases() {
    let qs = [Before, Inside, After];
    let mirror = |q: DurationQuotient| match q {
        Before => After,
        Inside => Inside,
        After => Before,
    };
    let mirror_use = |u: Option<UseTime>| match u {
        Some(UseTime::Min) => Some(UseTime::Max),
        Some(UseTime::Max) => Some(UseTime::Min),
        other => other,
    };
    for r in [None, Some(RepeatStyle::WrapAround), Some(RepeatStyle::PingPong)] {
        for p in qs {
            for n in qs {
                assert_eq!(
                    tween_visible(Backward, mirror(p), mirror(n), r),
                    mirror_use(tween_visible(Forward, p, n, r))
                );
            }
        }
    }
}

#[test]
fn span_tween_local_time() {
    let span = TimeSpan::try_from_range(secs(2), secs(4)).unwrap();
    // inside the span
    assert_eq!(span_tween_elasped(&span, secs(3), secs(2), Forward, None), Some(secs(1)));
    // entering and leaving forward
    assert_eq!(span_tween_elasped(&span, secs(3), secs(1), Forward, None), Some(secs(1)));
    assert_eq!(span_tween_elasped(&span, secs(5), secs(3), Forward, None), Some(secs(2)));
    // before the span: untouched
    assert_eq!(span_tween_elasped(&span, secs(1), Duration::zero(), Forward, None), None);
    // a repeat that went from 3s back to 1s moved backward out of the span:
    // the tween is set to its current local time, clamped at its start
    assert_eq!(
        span_tween_elasped(&span, secs(1), secs(3), Forward, Some(RepeatStyle::WrapAround)),
        Some(Duration::zero())
    );
    // a forward wrap that stayed before the span sets the tween to its end
    assert_eq!(
        span_tween_elasped(&span, secs(1), Duration::zero(), Forward, Some(RepeatStyle::WrapAround)),
        Some(secs(2))
    );
}

#[test]
fn span_tween_progress_cases() {
    let span = TimeSpan::try_from_range(secs(2), secs(4)).unwrap();
    assert_eq!(
        span_tween_progress(&span, secs(3), secs(2), Forward, None),
        SpanProgress::Fraction { elapsed: secs(1), length: secs(2) }
    );
    assert_eq!(span_tween_progress(&span, secs(1), secs(0), Forward, None), SpanProgress::Untouched);
    let instant = TimeSpan::try_from_range_inclusive(secs(2), secs(2)).unwrap();
    assert_eq!(span_tween_progress(&instant, secs(3), secs(1), Forward, None), SpanProgress::Complete);
    assert_eq!(span_tween_progress(&instant, secs(1), secs(3), Backward, None), SpanProgress::AtStart);
}

#[test]
fn delay_moves_the_span() {
    let span = TimeSpan::try_from_range_inclusive(secs(1), secs(4)).unwrap();
    let (delayed, length) = with_delay(&span, secs(2));
    assert_eq!(delayed.min(), TimeBound::Inclusive(secs(2)));
    assert_eq!(delayed.max(), TimeBound::Exclusive(secs(5)));
    assert_eq!(length, secs(5));
}
