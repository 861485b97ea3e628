//! Builders that pair a target with a setter and turn values into tweens,
//! optionally remembering the value each tween ends at so that the next one
//! can start there.
use vstd::prelude::*;
use core::marker::PhantomData;

use crate::duration::Duration;

verus! {

/// Whether cloning a value of type `V` always gives that same value.
pub open spec fn exact_clones<V: Clone>() -> bool {
    forall|a: V, b: V| #[trigger] vstd::pervasive::strictly_cloned(a, b) ==> a == b
}

/// A curve from `a` to `b` along an easing curve.
#[derive(Debug, Clone)]
pub struct AToB<V, C> {
    /// The start value.
    pub a: V,
    /// The end value.
    pub b: V,
    /// The easing curve.
    pub ease_curve: C,
}

/// A tween ready to be laid out on a timeline: how long it lasts, what it
/// targets, how it sets its value, and its curve.
#[derive(Debug, Clone)]
pub struct BuildTween<T, S, C> {
    /// How long the tween lasts.
    pub duration: Duration,
    /// What it targets.
    pub target: T,
    /// How it sets its value.
    pub setter: S,
    /// Its curve.
    pub curve: C,
}

/// A target paired with a setter of values of type `V`.
pub struct TargetSetter<T, S, V> {
    target: T,
    setter: S,
    value_marker: PhantomData<V>,
}

impl<T, S, V> TargetSetter<T, S, V> {
    /// The target it holds.
    pub closed spec fn target_spec(&self) -> T {
        self.target
    }

    /// The setter it holds.
    pub closed spec fn setter_spec(&self) -> S {
        self.setter
    }

    /// Pair `target` with `setter`.
    pub fn new(target: T, setter: S) -> (r: TargetSetter<T, S, V>)
        ensures
            r.target_spec() == target,
            r.setter_spec() == setter,
    {
        TargetSetter { target, setter, value_marker: PhantomData }
    }
}

impl<T: Clone, S: Clone, V> TargetSetter<T, S, V> {
    /// A tween of `duration` along `curve`, with copies of the target and
    /// the setter.
    pub fn curve<C>(&self, duration: Duration, curve: C) -> (r: BuildTween<T, S, C>)
        ensures
            r.duration == duration,
            cloned(self.target_spec(), r.target),
            cloned(self.setter_spec(), r.setter),
            r.curve == curve,
    {
        BuildTween { duration, target: self.target.clone(), setter: self.setter.clone(), curve }
    }

    /// A tween of `duration` from `start` to `end` along `ease_curve`, with
    /// copies of the target and the setter.
    pub fn tween<C>(&self, start: V, end: V, duration: Duration, ease_curve: C) -> (r: BuildTween<
        T,
        S,
        AToB<V, C>,
    >)
        ensures
            r.duration == duration,
            cloned(self.target_spec(), r.target),
            cloned(self.setter_spec(), r.setter),
            r.curve.a == start,
            r.curve.b == end,
            r.curve.ease_curve == ease_curve,
    {
        BuildTween {
            duration,
            target: self.target.clone(),
            setter: self.setter.clone(),
            curve: AToB { a: start, b: end, ease_curve },
        }
    }

    /// The same pair, remembering `value` as the current value.
    pub fn state(self, value: V) -> (r: TargetSetterState<T, S, V>)
        ensures
            r.target_spec() == self.target_spec(),
            r.setter_spec() == self.setter_spec(),
            r.state_spec() == value,
    {
        TargetSetterState { target: self.target, setter: self.setter, state: value }
    }
}

/// A target paired with a setter, remembering the value its last tween ends at.
pub struct TargetSetterState<T, S, V> {
    target: T,
    setter: S,
    state: V,
}

impl<T, S, V> TargetSetterState<T, S, V> {
    /// The target it holds.
    pub closed spec fn target_spec(&self) -> T {
        self.target
    }

    /// The setter it holds.
    pub closed spec fn setter_spec(&self) -> S {
        self.setter
    }

    /// The value remembered.
    pub closed spec fn state_spec(&self) -> V {
        self.state
    }
}

impl<T: Clone, S: Clone, V: Clone> TargetSetterState<T, S, V> {
    /// A tween of `duration` from `start` to `end` along `ease_curve`; a copy
    /// of `end` is remembered.
    pub fn tween<C>(&mut self, start: V, end: V, duration: Duration, ease_curve: C) -> (r: BuildTween<
        T,
        S,
        AToB<V, C>,
    >)
        ensures
            final(self).target_spec() == old(self).target_spec(),
            final(self).setter_spec() == old(self).setter_spec(),
            cloned(end, final(self).state_spec()),
            exact_clones::<V>() ==> final(self).state_spec() == end,
            r.duration == duration,
            cloned(old(self).target_spec(), r.target),
            cloned(old(self).setter_spec(), r.setter),
            r.curve.a == start,
            r.curve.b == end,
            r.curve.ease_curve == ease_curve,
    {
        self.state = end.clone();
        BuildTween {
            duration,
            target: self.target.clone(),
            setter: self.setter.clone(),
            curve: AToB { a: start, b: end, ease_curve },
        }
    }

    /// A tween of `duration` from the remembered value to `to` along
    /// `ease_curve`; a copy of `to` is remembered, so the next tween made
    /// with `tween_to` starts from a copy of where this one ends, and, where
    /// clones are exact, exactly there.
    pub fn tween_to<C>(&mut self, to: V, duration: Duration, ease_curve: C) -> (r: BuildTween<
        T,
        S,
        AToB<V, C>,
    >)
        ensures
            final(self).target_spec() == old(self).target_spec(),
            final(self).setter_spec() == old(self).setter_spec(),
            cloned(to, final(self).state_spec()),
            exact_clones::<V>() ==> final(self).state_spec() == to,
            r.duration == duration,
            cloned(old(self).target_spec(), r.target),
            cloned(old(self).setter_spec(), r.setter),
            r.curve.a == old(self).state_spec(),
            r.curve.b == to,
            r.curve.ease_curve == ease_curve,
    {
        let mut start = to.clone();
        std::mem::swap(&mut self.state, &mut start);
        self.tween(start, to, duration, ease_curve)
    }
}

} // verus!
