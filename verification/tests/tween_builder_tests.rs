use bevy_tween::duration::Duration;
use bevy_tween::tween_builder::TargetSetter;

#[test]
fn target_setter_makes_tweens() {
    let setter: TargetSetter<u64, &str, i32> = TargetSetter::new(7, "translation");
    let t = setter.tween(1, 5, Duration::from_secs(2), "linear");
    assert_eq!(t.duration, Duration::from_secs(2));
    assert_eq!(t.target, 7);
    assert_eq!(t.setter, "translation");
    assert_eq!((t.curve.a, t.curve.b, t.curve.ease_curve), (1, 5, "linear"));
    let c = setter.curve(Duration::from_millis(500), 42u8);
    assert_eq!((c.duration, c.target, c.setter, c.curve), (Duration::from_millis(500), 7, "translation", 42u8));
}

#[test]
fn target_setter_state_chains_tweens() {
    let mut state = TargetSetter::<u64, &str, i32>::new(7, "scale").state(0);
    let first = state.tween_to(10, Duration::from_secs(1), ());
    assert_eq!((first.curve.a, first.curve.b), (0, 10));
    let second = state.tween_to(-3, Duration::from_secs(1), ());
    assert_eq!((second.curve.a, second.curve.b), (10, -3));
    // an explicit tween sets the remembered value to its end
    let third = state.tween(100, 200, Duration::from_secs(3), ());
    assert_eq!((third.curve.a, third.curve.b, third.duration), (100, 200, Duration::from_secs(3)));
    let fourth = state.tween_to(0, Duration::from_secs(1), ());
    assert_eq!((fourth.curve.a, fourth.curve.b), (200, 0));
    assert_eq!(fourth.target, 7);
}
