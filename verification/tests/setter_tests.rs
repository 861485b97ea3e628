use std::sync::Arc;

use bevy_tween::items::ItemSet;
use bevy_tween::setter::Setter;
use bevy_tween::tween_setter::TweenSet;

struct AddTo;

impl ItemSet for AddTo {
    type Item = i64;
    type Value = i64;

    fn set(&self, item: &mut i64, value: &i64) {
        *item += *value;
    }
}

impl Setter<i64, i64> for AddTo {
    fn set(&self, item: &mut i64, value: &i64) {
        *item += *value;
    }
}

impl TweenSet<i64, i64> for AddTo {
    fn set(&self, item: &mut i64, value: &i64) {
        *item += *value;
    }
}

fn set_item<S: ItemSet<Item = i64, Value = i64>>(s: &S, item: &mut i64, value: i64) {
    s.set(item, &value)
}

fn set_generic<S: Setter<i64, i64>>(s: &S, item: &mut i64, value: i64) {
    s.set(item, &value)
}

fn set_tween<S: TweenSet<i64, i64>>(s: &S, item: &mut i64, value: i64) {
    s.set(item, &value)
}

fn leaked() -> &'static AddTo {
    Box::leak(Box::new(AddTo))
}

#[test]
fn item_setters_forward_to_the_held_setter() {
    let mut item = 1;
    set_item(&Box::new(AddTo), &mut item, 2);
    set_item(&Arc::new(AddTo), &mut item, 3);
    set_item(&leaked(), &mut item, 4);
    assert_eq!(item, 10);
}

#[test]
fn generic_setters_forward_to_the_held_setter() {
    let mut item = 0;
    set_generic(&Box::new(AddTo), &mut item, 5);
    set_generic(&Arc::new(AddTo), &mut item, 6);
    set_generic(&leaked(), &mut item, 7);
    assert_eq!(item, 18);
}

#[test]
fn tween_setters_forward_to_the_held_setter() {
    let mut item = 0;
    set_tween(&Box::new(AddTo), &mut item, 1);
    set_tween(&Arc::new(AddTo), &mut item, 1);
    set_tween(&leaked(), &mut item, 1);
    assert_eq!(item, 3);
}
