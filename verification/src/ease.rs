//! The named easing curves.
use vstd::prelude::*;

verus! {

/// A named easing curve. The curves themselves compute on floating-point
/// numbers and live beside the library.
#[derive(Debug, Clone, Copy, PartialEq, Eq, Hash, Structural)]
pub enum EaseFunctionEnum {
    /// Constant speed.
    Linear,
    /// Quadratic easing in.
    QuadraticIn,
    /// Quadratic easing out.
    QuadraticOut,
    /// Quadratic easing in and out.
    QuadraticInOut,
    /// Cubic easing in.
    CubicIn,
    /// Cubic easing out.
    CubicOut,
    /// Cubic easing in and out.
    CubicInOut,
    /// Quartic easing in.
    QuarticIn,
    /// Quartic easing out.
    QuarticOut,
    /// Quartic easing in and out.
    QuarticInOut,
    /// Quintic easing in.
    QuinticIn,
    /// Quintic easing out.
    QuinticOut,
    /// Quintic easing in and out.
    QuinticInOut,
    /// Sine easing in.
    SineIn,
    /// Sine easing out.
    SineOut,
    /// Sine easing in and out.
    SineInOut,
    /// Circular easing in.
    CircularIn,
    /// Circular easing out.
    CircularOut,
    /// Circular easing in and out.
    CircularInOut,
    /// Exponential easing in.
    ExponentialIn,
    /// Exponential easing out.
    ExponentialOut,
    /// Exponential easing in and out.
    ExponentialInOut,
    /// Elastic easing in.
    ElasticIn,
    /// Elastic easing out.
    ElasticOut,
    /// Elastic easing in and out.
    ElasticInOut,
    /// Back easing in.
    BackIn,
    /// Back easing out.
    BackOut,
    /// Back easing in and out.
    BackInOut,
    /// Bounce easing in.
    BounceIn,
    /// Bounce easing out.
    BounceOut,
    /// Bounce easing in and out.
    BounceInOut,
}

} // verus!
