//! Sampling lookup curves for tweens: which tweens sample their curve, with
//! or without their lookup cache, which curve handles are reported as
//! invalid, and which sampled values are removed.
use vstd::prelude::*;

use bevy_lookup_curve::LookupCache;

verus! {

/// The cache that speeds up coherent lookups in a lookup curve
/// (`bevy_lookup_curve::LookupCache`), carried as it is.
#[verifier::external_type_specification]
#[verifier::external_body]
pub struct ExLookupCache(LookupCache);

/// The lookup cache of a tween that samples a lookup curve.
pub struct LookupCurveCache(pub LookupCache);

/// Samples lookup curves for tweens; registering it with an application is
/// left to the engine side.
pub struct BevyLookupCurveInterpolationPlugin;

/// A tween that samples a lookup curve and whose progress or curve changed.
#[derive(Debug, Clone, Copy, PartialEq, Eq, Structural)]
pub struct CurveEntry {
    /// The tween's entity.
    pub entity: u64,
    /// The id of the curve's handle.
    pub curve_id: u128,
    /// Whether the handle resolves to a loaded curve.
    pub curve_loaded: bool,
    /// Whether the tween has a lookup cache.
    pub has_cache: bool,
    /// Whether its progress is not a number.
    pub progress_is_nan: bool,
}

/// What the lookup-curve system does for one entity.
#[derive(Debug, Clone, Copy, PartialEq, Eq, Structural)]
pub enum CurveAction {
    /// Sample the curve at the progress, clamped to `0..=1`, through the
    /// tween's lookup cache, and store the value.
    SampleCached {
        #[allow(missing_docs)]
        entity: u64,
    },
    /// Sample the curve at the progress, clamped to `0..=1`, and store the
    /// value.
    Sample {
        #[allow(missing_docs)]
        entity: u64,
    },
    /// Report that the curve handle does not resolve.
    ReportInvalidHandle {
        #[allow(missing_docs)]
        curve_id: u128,
    },
    /// Remove the stored value of an entity whose progress was removed.
    RemoveValue {
        #[allow(missing_docs)]
        entity: u64,
    },
}

/// What the lookup-curve system does for one tween: nothing where its
/// progress is not a number; a report where its handle does not resolve;
/// else a sample, through its cache where it has one.
pub open spec fn curve_action(e: CurveEntry) -> Option<CurveAction> {
    if e.progress_is_nan {
        None
    } else if !e.curve_loaded {
        Some(CurveAction::ReportInvalidHandle { curve_id: e.curve_id })
    } else if e.has_cache {
        Some(CurveAction::SampleCached { entity: e.entity })
    } else {
        Some(CurveAction::Sample { entity: e.entity })
    }
}

/// The actions for the tweens `entries`, in order.
pub open spec fn curve_actions(entries: Seq<CurveEntry>) -> Seq<CurveAction>
    decreases entries.len(),
{
    if entries.len() == 0 {
        Seq::empty()
    } else {
        let rest = curve_actions(entries.drop_last());
        match curve_action(entries.last()) {
            Some(a) => rest.push(a),
            None => rest,
        }
    }
}

/// Removing the values of the entities in `removed`, in order.
pub open spec fn value_removals(removed: Seq<u64>) -> Seq<CurveAction> {
    removed.map_values(|e: u64| CurveAction::RemoveValue { entity: e })
}

/// The lookup-curve system: the actions of [`curve_actions`] for `entries`,
/// then the removals of the values of the entities in `removed`. An invalid
/// handle is reported each time a tween that uses it changes.
pub fn sample_lookup_curve_system(entries: &Vec<CurveEntry>, removed: &Vec<u64>) -> (r: Vec<CurveAction>)
    ensures
        r@ == curve_actions(entries@) + value_removals(removed@),
{
    let mut actions: Vec<CurveAction> = Vec::new();
    let mut i: usize = 0;
    while i < entries.len()
        invariant
            i <= entries.len(),
            actions@ == curve_actions(entries@.take(i as int)),
        decreases entries.len() - i,
    {
        proof {
            assert(entries@.take(i as int + 1).drop_last() == entries@.take(i as int));
        }
        let e = entries[i];
        if !e.progress_is_nan {
            if !e.curve_loaded {
                actions.push(CurveAction::ReportInvalidHandle { curve_id: e.curve_id });
            } else if e.has_cache {
                actions.push(CurveAction::SampleCached { entity: e.entity });
            } else {
                actions.push(CurveAction::Sample { entity: e.entity });
            }
        }
        i += 1;
    }
    proof {
        assert(entries@.take(entries@.len() as int) == entries@);
    }
    let ghost before = actions@;
    let mut j: usize = 0;
    while j < removed.len()
        invariant
            j <= removed.len(),
            actions@ == before + value_removals(removed@.take(j as int)),
        decreases removed.len() - j,
    {
        proof {
            assert(value_removals(removed@.take(j as int + 1)) == value_removals(removed@.take(j as int)).push(
                CurveAction::RemoveValue { entity: removed@[j as int] },
            ));
        }
        actions.push(CurveAction::RemoveValue { entity: removed[j] });
        j += 1;
    }
    proof {
        assert(removed@.take(removed@.len() as int) == removed@);
    }
    actions
}

} // verus!
