use bevy_tween::event::{tween_event_system, tween_event_taking_system};

#[test]
fn every_tween_with_data_fires_at_every_run() {
    let entries = vec![(1u64, "start"), (2, "end")];
    assert_eq!(tween_event_system(&entries), vec![(1, "start"), (2, "end")]);
    assert_eq!(tween_event_system(&entries), vec![(1, "start"), (2, "end")]);
}

#[test]
fn taking_tweens_fire_once() {
    let mut entries = vec![(1u64, Some(String::from("a"))), (2, None), (3, Some(String::from("c")))];
    let events = tween_event_taking_system(&mut entries);
    assert_eq!(events, vec![(1, String::from("a")), (3, String::from("c"))]);
    assert_eq!(entries, vec![(1, None), (2, None), (3, None)]);
    assert!(tween_event_taking_system(&mut entries).is_empty());
}
