//! Setters: values that know how to write a value into an item, and how a
//! boxed, shared or borrowed setter forwards to the one it holds.
use vstd::prelude::*;
use std::sync::Arc;

verus! {

/// Writes a value of type `Value` into an item of type `Item`.
pub trait ItemSet: Send + Sync + 'static {
    /// The item written to.
    type Item;
    /// The value written.
    type Value;

    /// Whether writing `value` into `before` may leave `after`. A setter
    /// that says nothing more allows any result.
    open spec fn set_allows(&self, before: Self::Item, value: Self::Value, after: Self::Item) -> bool {
        true
    }

    /// Write `value` into `item`, leaving it as [`Self::set_allows`] allows.
    fn set(&self, item: &mut Self::Item, value: &Self::Value)
        ensures
            self.set_allows(*old(item), *value, *final(item)),
    ;
}

impl<S: ItemSet + ?Sized> ItemSet for Box<S> {
    type Item = S::Item;
    type Value = S::Value;

    /// The held setter's results.
    open spec fn set_allows(&self, before: Self::Item, value: Self::Value, after: Self::Item) -> bool {
        (**self).set_allows(before, value, after)
    }

    fn set(&self, item: &mut Self::Item, value: &Self::Value) {
        (**self).set(item, value)
    }
}

impl<S: ItemSet + ?Sized> ItemSet for &'static S {
    type Item = S::Item;
    type Value = S::Value;

    /// The held setter's results.
    open spec fn set_allows(&self, before: Self::Item, value: Self::Value, after: Self::Item) -> bool {
        (**self).set_allows(before, value, after)
    }

    fn set(&self, item: &mut Self::Item, value: &Self::Value) {
        (**self).set(item, value)
    }
}

impl<S: ItemSet + ?Sized> ItemSet for Arc<S> {
    type Item = S::Item;
    type Value = S::Value;

    /// The held setter's results.
    open spec fn set_allows(&self, before: Self::Item, value: Self::Value, after: Self::Item) -> bool {
        (**self).set_allows(before, value, after)
    }

    fn set(&self, item: &mut Self::Item, value: &Self::Value) {
        (**self).set(item, value)
    }
}

} // verus!
