//! Verified time logic of a tweening and keyframe animation library.
use vstd::prelude::*;

pub mod duration;
pub mod span;
pub mod repeat;
pub mod player;
pub mod tweener;
pub mod combinator;
pub mod builder;
pub mod interpolation;
pub mod sampling;
pub mod target;
pub mod items;
pub mod setter;
pub mod tween_setter;
pub mod timer;
pub mod ease;
pub mod apply;
pub mod systems;
pub mod world_set;
pub mod tween_builder;
pub mod event;

verus! {

} // verus!
