//! Tween events: which tweens with event data fire an event, and with what
//! data.
use vstd::prelude::*;

verus! {

/// The events fired by tweens that take their data: one for each of
/// `entries` that still holds data, in order, with that data.
pub open spec fn taken_events<D>(entries: Seq<(u64, Option<D>)>) -> Seq<(u64, D)>
    decreases entries.len(),
{
    if entries.len() == 0 {
        Seq::empty()
    } else {
        let rest = taken_events(entries.drop_last());
        match entries.last().1 {
            Some(d) => rest.push((entries.last().0, d)),
            None => rest,
        }
    }
}

/// The tween event system: every tween with event data, progress, and no
/// mark to be skipped (`entries`, with their data) fires an event with a
/// copy of its data, at every run, in order.
pub fn tween_event_system<D: Clone>(entries: &Vec<(u64, D)>) -> (r: Vec<(u64, D)>)
    ensures
        r@.len() == entries@.len(),
        forall|i: int| 0 <= i < entries@.len() ==> (#[trigger] r@[i]).0 == entries@[i].0 && cloned(entries@[i].1, r@[i].1),
{
    let mut events: Vec<(u64, D)> = Vec::new();
    let mut i: usize = 0;
    while i < entries.len()
        invariant
            i <= entries.len(),
            events@.len() == i,
            forall|k: int| 0 <= k < i ==> (#[trigger] events@[k]).0 == entries@[k].0 && cloned(entries@[k].1, events@[k].1),
        decreases entries.len() - i,
    {
        let entity = entries[i].0;
        let data = entries[i].1.clone();
        events.push((entity, data));
        i += 1;
    }
    events
}

/// The tween event system that takes the data: every tween of `entries` that
/// still holds data fires one event with it, in order, and is left without
/// data, so that it fires no more.
pub fn tween_event_taking_system<D>(entries: &mut Vec<(u64, Option<D>)>) -> (r: Vec<(u64, D)>)
    ensures
        final(entries)@.len() == old(entries)@.len(),
        forall|i: int| 0 <= i < old(entries)@.len() ==> (#[trigger] final(entries)@[i]).0 == old(entries)@[i].0
            && final(entries)@[i].1 is None,
        r@ == taken_events(old(entries)@),
{
    let ghost start = entries@;
    let mut events: Vec<(u64, D)> = Vec::new();
    let mut i: usize = 0;
    while i < entries.len()
        invariant
            i <= entries.len(),
            entries@.len() == start.len(),
            forall|k: int| 0 <= k < i ==> (#[trigger] entries@[k]).0 == start[k].0 && entries@[k].1 is None,
            forall|k: int| i <= k < start.len() ==> #[trigger] entries@[k] == start[k],
            events@ == taken_events(start.take(i as int)),
        decreases entries.len() - i,
    {
        proof {
            assert(start.take(i as int + 1).drop_last() == start.take(i as int));
        }
        let slot = &mut entries[i];
        let taken = slot.1.take();
        match taken {
            Some(d) => events.push((slot.0, d)),
            None => {},
        }
        i += 1;
    }
    proof {
        assert(start.take(start.len() as int) == start);
    }
    events
}

} // verus!
