//! What the curve sampling systems do with the tweens whose progress
//! changed: which to sample, which curve handles to report as invalid (once
//! while they stay invalid), and which sampled values to remove.
use vstd::prelude::*;

pub use crate::interpolation::LookupCurveCache;

verus! {

/// A tween whose progress or interpolation changed, as the sampling systems
/// see it.
#[derive(Debug, Clone, Copy, PartialEq, Eq, Structural)]
pub struct SampleEntry {
    /// The tween's entity.
    pub entity: u64,
    /// Whether its progress is not a number.
    pub progress_is_nan: bool,
}

/// A tween that samples a lookup curve, as the lookup-curve system sees it.
#[derive(Debug, Clone, Copy, PartialEq, Eq, Structural)]
pub struct LookupEntry {
    /// The tween's entity.
    pub entity: u64,
    /// The id of the curve's handle.
    pub curve_id: u128,
    /// Whether the handle resolves to a loaded curve.
    pub curve_loaded: bool,
    /// Whether the tween's progress is not a number.
    pub progress_is_nan: bool,
}

/// What a sampling system does for one entity.
#[derive(Debug, Clone, Copy, PartialEq, Eq, Structural)]
pub enum SampleAction {
    /// Sample at the entity's progress, clamped to `0..=1`, and store the value.
    Sample {
        #[allow(missing_docs)]
        entity: u64,
    },
    /// Report that the curve handle does not resolve.
    ReportInvalidHandle {
        #[allow(missing_docs)]
        curve_id: u128,
    },
    /// Remove the stored value of an entity whose progress was removed.
    RemoveValue {
        #[allow(missing_docs)]
        entity: u64,
    },
}

/// Removing the values of the entities in `removed`, in order.
pub open spec fn removals(removed: Seq<u64>) -> Seq<SampleAction>
    decreases removed.len(),
{
    if removed.len() == 0 {
        Seq::empty()
    } else {
        removals(removed.drop_last()).push(SampleAction::RemoveValue { entity: removed.last() })
    }
}

/// The samples taken for `entries`, in order: every entry whose progress is a
/// number is sampled.
pub open spec fn samples(entries: Seq<SampleEntry>) -> Seq<SampleAction>
    decreases entries.len(),
{
    if entries.len() == 0 {
        Seq::empty()
    } else {
        let rest = samples(entries.drop_last());
        let e = entries.last();
        if e.progress_is_nan {
            rest
        } else {
            rest.push(SampleAction::Sample { entity: e.entity })
        }
    }
}

/// The actions for the lookup-curve tweens `entries`, in order, and the ids
/// of the handles found invalid in them, given the ids found invalid at the
/// previous run (`last`). An entry whose progress is not a number is skipped;
/// one whose handle does not resolve adds the id to the invalid ones, and is
/// reported unless it was invalid at the previous run or earlier in this one;
/// any other is sampled.
pub open spec fn lookup_actions(entries: Seq<LookupEntry>, last: Set<u128>) -> (Seq<SampleAction>, Set<u128>)
    decreases entries.len(),
{
    if entries.len() == 0 {
        (Seq::empty(), Set::empty())
    } else {
        let (rest, errors) = lookup_actions(entries.drop_last(), last);
        let e = entries.last();
        if e.progress_is_nan {
            (rest, errors)
        } else if !e.curve_loaded {
            if !last.contains(e.curve_id) && !errors.contains(e.curve_id) {
                (rest.push(SampleAction::ReportInvalidHandle { curve_id: e.curve_id }), errors.insert(e.curve_id))
            } else {
                (rest, errors.insert(e.curve_id))
            }
        } else {
            (rest.push(SampleAction::Sample { entity: e.entity }), errors)
        }
    }
}

/// Whether `id` is among `ids`.
fn contains_id(ids: &Vec<u128>, id: u128) -> (r: bool)
    ensures
        r == ids@.contains(id),
{
    let mut i: usize = 0;
    while i < ids.len()
        invariant
            i <= ids.len(),
            forall|j: int| 0 <= j < i ==> ids@[j] != id,
        decreases ids.len() - i,
    {
        if ids[i] == id {
            return true;
        }
        i += 1;
    }
    false
}

/// Append the removals of the values of `removed` to `actions`.
fn push_removals(actions: &mut Vec<SampleAction>, removed: &Vec<u64>)
    ensures
        final(actions)@ == old(actions)@ + removals(removed@),
{
    let mut i: usize = 0;
    while i < removed.len()
        invariant
            i <= removed.len(),
            actions@ == old(actions)@ + removals(removed@.take(i as int)),
        decreases removed.len() - i,
    {
        proof {
            assert(removed@.take(i as int + 1).drop_last() == removed@.take(i as int));
        }
        actions.push(SampleAction::RemoveValue { entity: removed[i] });
        i += 1;
    }
    proof {
        assert(removed@.take(removed@.len() as int) == removed@);
    }
}

/// The interpolation sampling system: sample every changed tween whose
/// progress is a number, then remove the values of the tweens whose progress
/// was removed.
pub fn sample_interpolations_system(entries: &Vec<SampleEntry>, removed: &Vec<u64>) -> (r: Vec<SampleAction>)
    ensures
        r@ == samples(entries@) + removals(removed@),
{
    let mut actions: Vec<SampleAction> = Vec::new();
    let mut i: usize = 0;
    while i < entries.len()
        invariant
            i <= entries.len(),
            actions@ == samples(entries@.take(i as int)),
        decreases entries.len() - i,
    {
        proof {
            assert(entries@.take(i as int + 1).drop_last() == entries@.take(i as int));
        }
        let e = entries[i];
        if !e.progress_is_nan {
            actions.push(SampleAction::Sample { entity: e.entity });
        }
        i += 1;
    }
    proof {
        assert(entries@.take(entries@.len() as int) == entries@);
    }
    push_removals(&mut actions, removed);
    actions
}

/// The ease-closure sampling system: the same decisions as
/// [`sample_interpolations_system`].
pub fn ease_closure_system(entries: &Vec<SampleEntry>, removed: &Vec<u64>) -> (r: Vec<SampleAction>)
    ensures
        r@ == samples(entries@) + removals(removed@),
{
    sample_interpolations_system(entries, removed)
}

/// The lookup-curve sampling system: the actions of [`lookup_actions`] for
/// `entries`, then the removals of the values of `removed`. The ids of the
/// handles found invalid in this run replace those of the previous run in
/// `last_handle_error`.
pub fn sample_lookup_curve_system(
    entries: &Vec<LookupEntry>,
    removed: &Vec<u64>,
    last_handle_error: &mut Vec<u128>,
) -> (r: Vec<SampleAction>)
    ensures
        r@ == lookup_actions(entries@, old(last_handle_error)@.to_set()).0 + removals(removed@),
        final(last_handle_error)@.to_set() == lookup_actions(entries@, old(last_handle_error)@.to_set()).1,
{
    let ghost last = last_handle_error@.to_set();
    let mut actions: Vec<SampleAction> = Vec::new();
    let mut handle_error: Vec<u128> = Vec::new();
    let mut i: usize = 0;
    while i < entries.len()
        invariant
            i <= entries.len(),
            last == last_handle_error@.to_set(),
            actions@ == lookup_actions(entries@.take(i as int), last).0,
            handle_error@.to_set() == lookup_actions(entries@.take(i as int), last).1,
        decreases entries.len() - i,
    {
        proof {
            assert(entries@.take(i as int + 1).drop_last() == entries@.take(i as int));
        }
        let e = entries[i];
        if !e.progress_is_nan {
            if !e.curve_loaded {
                let seen_last = contains_id(last_handle_error, e.curve_id);
                let seen_now = contains_id(&handle_error, e.curve_id);
                if !seen_last && !seen_now {
                    actions.push(SampleAction::ReportInvalidHandle { curve_id: e.curve_id });
                }
                let ghost before = handle_error@;
                handle_error.push(e.curve_id);
                proof {
                    assert(handle_error@.to_set() == before.to_set().insert(e.curve_id)) by {
                        assert forall|x: u128| handle_error@.to_set().contains(x) <==> before.to_set().insert(e.curve_id).contains(x) by {
                            if x == e.curve_id {
                                assert(handle_error@[before.len() as int] == x);
                            } else if handle_error@.contains(x) {
                                let j = choose|j: int| 0 <= j < handle_error@.len() && handle_error@[j] == x;
                                assert(before[j] == x);
                            } else if before.contains(x) {
                                let j = choose|j: int| 0 <= j < before.len() && before[j] == x;
                                assert(handle_error@[j] == x);
                            }
                        }
                    }
                }
            } else {
                actions.push(SampleAction::Sample { entity: e.entity });
            }
        }
        i += 1;
    }
    proof {
        assert(entries@.take(entries@.len() as int) == entries@);
    }
    push_removals(&mut actions, removed);
    *last_handle_error = handle_error;
    actions
}

/// Whether every invalid handle reported in `actions` is reported once only,
/// was not invalid at the previous run (`last`), and is among the invalid ones
/// of this run (`errors`).
pub open spec fn reported_once(actions: Seq<SampleAction>, last: Set<u128>, errors: Set<u128>) -> bool {
    forall|i: int| #![trigger actions[i]] 0 <= i < actions.len() ==> match actions[i] {
        SampleAction::ReportInvalidHandle { curve_id } => {
            &&& !last.contains(curve_id)
            &&& errors.contains(curve_id)
            &&& forall|j: int| 0 <= j < actions.len() && j != i ==> actions[j] != (SampleAction::ReportInvalidHandle { curve_id })
        },
        _ => true,
    }
}

/// An invalid curve handle is reported at most once per run, and not at all
/// while it stays invalid from the previous run.
pub proof fn lemma_invalid_handle_reported_once(entries: Seq<LookupEntry>, last: Set<u128>)
    ensures
        reported_once(lookup_actions(entries, last).0, last, lookup_actions(entries, last).1),
    decreases entries.len(),
{
    if entries.len() > 0 {
        lemma_invalid_handle_reported_once(entries.drop_last(), last);
        let (rest, errors) = lookup_actions(entries.drop_last(), last);
        let (acts, errs) = lookup_actions(entries, last);
        let e = entries.last();
        assert forall|i: int| #![trigger acts[i]] 0 <= i < acts.len() implies match acts[i] {
            SampleAction::ReportInvalidHandle { curve_id } => {
                &&& !last.contains(curve_id)
                &&& errs.contains(curve_id)
                &&& forall|j: int| 0 <= j < acts.len() && j != i ==> acts[j] != (SampleAction::ReportInvalidHandle { curve_id })
            },
            _ => true,
        } by {
            if i < rest.len() {
                assert(acts[i] == rest[i]);
                if let SampleAction::ReportInvalidHandle { curve_id } = acts[i] {
                    assert forall|j: int| 0 <= j < acts.len() && j != i implies acts[j] != (SampleAction::ReportInvalidHandle { curve_id }) by {
                        if j < rest.len() {
                            assert(acts[j] == rest[j]);
                        }
                    }
                }
            } else {
                if let SampleAction::ReportInvalidHandle { curve_id } = acts[i] {
                    assert forall|j: int| 0 <= j < acts.len() && j != i implies acts[j] != (SampleAction::ReportInvalidHandle { curve_id }) by {
                        assert(acts[j] == rest[j]);
                        if let SampleAction::ReportInvalidHandle { curve_id: c } = rest[j] {
                            assert(errors.contains(c));
                        }
                    }
                }
            }
        }
    }
}

} // verus!
