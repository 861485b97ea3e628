//! Setters generic over the item and the value they write, and how a boxed,
//! shared or borrowed setter forwards to the one it holds.
use vstd::prelude::*;
use std::sync::Arc;

verus! {

/// Writes a `Value` into an `Item`.
pub trait Setter<Item, Value>: Send + Sync + 'static {
    /// Whether writing `value` into `before` may leave `after`. A setter
    /// that says nothing more allows any result.
    open spec fn set_allows(&self, before: Item, value: Value, after: Item) -> bool {
        true
    }

    /// Write `value` into `item`, leaving it as [`Self::set_allows`] allows.
    fn set(&self, item: &mut Item, value: &Value)
        ensures
            self.set_allows(*old(item), *value, *final(item)),
    ;
}

impl<S: Setter<Item, Value> + ?Sized, Item, Value> Setter<Item, Value> for Box<S> {
    /// The held setter's results.
    open spec fn set_allows(&self, before: Item, value: Value, after: Item) -> bool {
        (**self).set_allows(before, value, after)
    }

    fn set(&self, item: &mut Item, value: &Value) {
        (**self).set(item, value)
    }
}

impl<S: Setter<Item, Value> + ?Sized, Item, Value> Setter<Item, Value> for &'static S {
    /// The held setter's results.
    open spec fn set_allows(&self, before: Item, value: Value, after: Item) -> bool {
        (**self).set_allows(before, value, after)
    }

    fn set(&self, item: &mut Item, value: &Value) {
        (**self).set(item, value)
    }
}

impl<S: Setter<Item, Value> + ?Sized, Item, Value> Setter<Item, Value> for Arc<S> {
    /// The held setter's results.
    open spec fn set_allows(&self, before: Item, value: Value, after: Item) -> bool {
        (**self).set_allows(before, value, after)
    }

    fn set(&self, item: &mut Item, value: &Value) {
        (**self).set(item, value)
    }
}

} // verus!
