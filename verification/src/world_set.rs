//! What a world setter writes when a tween sets its value straight into the
//! world: into which components, assets or resource, stopping at the first
//! target it cannot find.
use vstd::prelude::*;

use crate::apply::{TargetAsset, TargetComponent};

verus! {

/// The leading part of `targets` whose members are all in `available`: the
/// targets written before the first one that cannot be found.
pub open spec fn until_missing<T>(targets: Seq<T>, available: Seq<T>) -> Seq<T>
    decreases targets.len(),
{
    if targets.len() == 0 {
        Seq::empty()
    } else if available.contains(targets[0]) {
        seq![targets[0]] + until_missing(targets.skip(1), available)
    } else {
        Seq::empty()
    }
}

/// The asset that the first handle of entity `e` among `handles` points to.
pub open spec fn handle_of(handles: Seq<(u64, u128)>, e: u64) -> Option<u128>
    decreases handles.len(),
{
    if handles.len() == 0 {
        None
    } else if handles[0].0 == e {
        Some(handles[0].1)
    } else {
        handle_of(handles.skip(1), e)
    }
}

/// The assets behind the handles of the entities `targets`, in order, up to
/// the first entity without a handle or whose asset is not loaded.
pub open spec fn handle_assets_until_missing(targets: Seq<u64>, handles: Seq<(u64, u128)>, loaded: Seq<u128>) -> Seq<
    u128,
>
    decreases targets.len(),
{
    if targets.len() == 0 {
        Seq::empty()
    } else {
        match handle_of(handles, targets[0]) {
            Some(a) => if loaded.contains(a) {
                seq![a] + handle_assets_until_missing(targets.skip(1), handles, loaded)
            } else {
                Seq::empty()
            },
            None => Seq::empty(),
        }
    }
}

/// The entities a tween targets, in order.
pub open spec fn component_targets(target: TargetComponent) -> Seq<u64> {
    match target {
        TargetComponent::NoTarget => Seq::empty(),
        TargetComponent::Entity(e) => seq![e],
        TargetComponent::Entities(v) => v@,
    }
}

/// The assets a tween targets, in order.
pub open spec fn asset_targets(target: TargetAsset) -> Seq<u128> {
    match target {
        TargetAsset::NoTarget => Seq::empty(),
        TargetAsset::Asset(a) => seq![a],
        TargetAsset::Assets(v) => v@,
    }
}

/// Whether `x` is among `xs`.
fn contains_u64(xs: &Vec<u64>, x: u64) -> (r: bool)
    ensures
        r == xs@.contains(x),
{
    let mut i: usize = 0;
    while i < xs.len()
        invariant
            i <= xs.len(),
            forall|j: int| 0 <= j < i ==> xs@[j] != x,
        decreases xs.len() - i,
    {
        if xs[i] == x {
            return true;
        }
        i += 1;
    }
    false
}

/// Whether `x` is among `xs`.
fn contains_u128(xs: &Vec<u128>, x: u128) -> (r: bool)
    ensures
        r == xs@.contains(x),
{
    let mut i: usize = 0;
    while i < xs.len()
        invariant
            i <= xs.len(),
            forall|j: int| 0 <= j < i ==> xs@[j] != x,
        decreases xs.len() - i,
    {
        if xs[i] == x {
            return true;
        }
        i += 1;
    }
    false
}

/// The asset behind the first handle of `e` among `handles`.
fn find_handle(handles: &Vec<(u64, u128)>, e: u64) -> (r: Option<u128>)
    ensures
        r == handle_of(handles@, e),
{
    let mut i: usize = 0;
    proof {
        assert(handles@.skip(0) == handles@);
    }
    while i < handles.len()
        invariant
            i <= handles.len(),
            handle_of(handles@, e) == handle_of(handles@.skip(i as int), e),
        decreases handles.len() - i,
    {
        proof {
            assert(handles@.skip(i as int).skip(1) == handles@.skip(i as int + 1));
        }
        let (entity, asset) = handles[i];
        if entity == e {
            return Some(asset);
        }
        i += 1;
    }
    None
}

/// The entities of `targets` up to the first one without the component: see
/// [`until_missing`].
fn entities_until_missing(targets: &Vec<u64>, with_component: &Vec<u64>) -> (r: Vec<u64>)
    ensures
        r@ == until_missing(targets@, with_component@),
{
    let mut out: Vec<u64> = Vec::new();
    let mut i: usize = 0;
    proof {
        assert(targets@.skip(0) == targets@);
    }
    while i < targets.len()
        invariant
            i <= targets.len(),
            out@ + until_missing(targets@.skip(i as int), with_component@) == until_missing(targets@, with_component@),
        decreases targets.len() - i,
    {
        let e = targets[i];
        proof {
            assert(targets@.skip(i as int)[0] == e);
            assert(targets@.skip(i as int).skip(1) == targets@.skip(i as int + 1));
        }
        if !contains_u64(with_component, e) {
            proof {
                assert(out@ + Seq::<u64>::empty() == out@);
            }
            return out;
        }
        let ghost before = out@;
        out.push(e);
        proof {
            assert(before + (seq![e] + until_missing(targets@.skip(i as int + 1), with_component@)) == out@
                + until_missing(targets@.skip(i as int + 1), with_component@));
        }
        i += 1;
    }
    proof {
        assert(until_missing(targets@.skip(i as int), with_component@) == Seq::<u64>::empty());
        assert(out@ + Seq::<u64>::empty() == out@);
    }
    out
}

/// The components a tween sets its value into: none without a value, else
/// those of its target entities up to the first one that lacks the
/// component (`with_component` holds the entities that have it).
pub fn component_writes(target: &TargetComponent, value_present: bool, with_component: &Vec<u64>) -> (r: Vec<u64>)
    ensures
        r@ == if value_present {
            until_missing(component_targets(*target), with_component@)
        } else {
            Seq::empty()
        },
{
    if !value_present {
        return Vec::new();
    }
    match target {
        TargetComponent::NoTarget => {
            proof {
                assert(until_missing(Seq::<u64>::empty(), with_component@) == Seq::<u64>::empty());
            }
            Vec::new()
        },
        TargetComponent::Entity(e) => {
            let one = vec![*e];
            proof {
                assert(one@ == seq![*e]);
            }
            entities_until_missing(&one, with_component)
        },
        TargetComponent::Entities(v) => entities_until_missing(v, with_component),
    }
}

/// The assets of `targets` up to the first one not loaded: see
/// [`until_missing`].
fn assets_until_missing(targets: &Vec<u128>, loaded: &Vec<u128>) -> (r: Vec<u128>)
    ensures
        r@ == until_missing(targets@, loaded@),
{
    let mut out: Vec<u128> = Vec::new();
    let mut i: usize = 0;
    proof {
        assert(targets@.skip(0) == targets@);
    }
    while i < targets.len()
        invariant
            i <= targets.len(),
            out@ + until_missing(targets@.skip(i as int), loaded@) == until_missing(targets@, loaded@),
        decreases targets.len() - i,
    {
        let a = targets[i];
        proof {
            assert(targets@.skip(i as int)[0] == a);
            assert(targets@.skip(i as int).skip(1) == targets@.skip(i as int + 1));
        }
        if !contains_u128(loaded, a) {
            proof {
                assert(out@ + Seq::<u128>::empty() == out@);
            }
            return out;
        }
        let ghost before = out@;
        out.push(a);
        proof {
            assert(before + (seq![a] + until_missing(targets@.skip(i as int + 1), loaded@)) == out@
                + until_missing(targets@.skip(i as int + 1), loaded@));
        }
        i += 1;
    }
    proof {
        assert(until_missing(targets@.skip(i as int), loaded@) == Seq::<u128>::empty());
        assert(out@ + Seq::<u128>::empty() == out@);
    }
    out
}

/// The assets a tween sets its value into: none without a value or without
/// the asset collection, else its target assets up to the first one not
/// loaded.
pub fn asset_writes(target: &TargetAsset, value_present: bool, assets_exist: bool, loaded: &Vec<u128>) -> (r: Vec<
    u128,
>)
    ensures
        r@ == if value_present && assets_exist {
            until_missing(asset_targets(*target), loaded@)
        } else {
            Seq::empty()
        },
{
    if !value_present || !assets_exist {
        return Vec::new();
    }
    match target {
        TargetAsset::NoTarget => {
            proof {
                assert(until_missing(Seq::<u128>::empty(), loaded@) == Seq::<u128>::empty());
            }
            Vec::new()
        },
        TargetAsset::Asset(a) => {
            let one = vec![*a];
            proof {
                assert(one@ == seq![*a]);
            }
            assets_until_missing(&one, loaded)
        },
        TargetAsset::Assets(v) => assets_until_missing(v, loaded),
    }
}

/// The assets behind the handles of `targets`: see
/// [`handle_assets_until_missing`].
fn handle_assets(targets: &Vec<u64>, handles: &Vec<(u64, u128)>, loaded: &Vec<u128>) -> (r: Vec<u128>)
    ensures
        r@ == handle_assets_until_missing(targets@, handles@, loaded@),
{
    let mut out: Vec<u128> = Vec::new();
    let mut i: usize = 0;
    proof {
        assert(targets@.skip(0) == targets@);
    }
    while i < targets.len()
        invariant
            i <= targets.len(),
            out@ + handle_assets_until_missing(targets@.skip(i as int), handles@, loaded@)
                == handle_assets_until_missing(targets@, handles@, loaded@),
        decreases targets.len() - i,
    {
        let e = targets[i];
        proof {
            assert(targets@.skip(i as int)[0] == e);
            assert(targets@.skip(i as int).skip(1) == targets@.skip(i as int + 1));
        }
        let a = match find_handle(handles, e) {
            Some(a) => a,
            None => {
                proof {
                    assert(out@ + Seq::<u128>::empty() == out@);
                }
                return out;
            },
        };
        if !contains_u128(loaded, a) {
            proof {
                assert(out@ + Seq::<u128>::empty() == out@);
            }
            return out;
        }
        let ghost before = out@;
        out.push(a);
        proof {
            assert(before + (seq![a] + handle_assets_until_missing(targets@.skip(i as int + 1), handles@, loaded@))
                == out@ + handle_assets_until_missing(targets@.skip(i as int + 1), handles@, loaded@));
        }
        i += 1;
    }
    proof {
        assert(handle_assets_until_missing(targets@.skip(i as int), handles@, loaded@) == Seq::<u128>::empty());
        assert(out@ + Seq::<u128>::empty() == out@);
    }
    out
}

/// The assets a tween of the assets its target entities hold handles to sets
/// its value into: none without a value or without the asset collection,
/// else the assets behind the handles of its target entities (`handles`
/// pairs an entity with the asset its handle points to), up to the first
/// entity without a handle or whose asset is not loaded.
pub fn handle_writes(
    target: &TargetComponent,
    value_present: bool,
    handles: &Vec<(u64, u128)>,
    assets_exist: bool,
    loaded: &Vec<u128>,
) -> (r: Vec<u128>)
    ensures
        r@ == if value_present && assets_exist {
            handle_assets_until_missing(component_targets(*target), handles@, loaded@)
        } else {
            Seq::empty()
        },
{
    if !value_present || !assets_exist {
        return Vec::new();
    }
    match target {
        TargetComponent::NoTarget => Vec::new(),
        TargetComponent::Entity(e) => {
            let one = vec![*e];
            proof {
                assert(one@ == seq![*e]);
            }
            handle_assets(&one, handles, loaded)
        },
        TargetComponent::Entities(v) => handle_assets(v, handles, loaded),
    }
}

/// Whether a tween sets its value into its resource: it must target the
/// resource, have a value, and the resource must exist.
pub fn resource_write(targets_resource: bool, value_present: bool, resource_exists: bool) -> (r: bool)
    ensures
        r == (targets_resource && value_present && resource_exists),
{
    targets_resource && value_present && resource_exists
}

/// How a tween with a dynamic setter sets its value.
#[derive(Debug, Clone)]
pub enum DynamicSetterKind {
    /// Through its own function of the world.
    Custom,
    /// Through a reflected path into a component of its target, given
    /// whether every lookup on the way succeeds: the type data of the
    /// component and of the value, the tween's value and its field, the
    /// target's component, the path within it, and applying the value.
    Reflect {
        /// The entities the tween targets; none where it has no target.
        target: TargetComponent,
        /// Whether every lookup succeeds.
        lookups_succeed: bool,
    },
}

/// A tween with a dynamic setter that is not skipped and has progress, as
/// the dynamic-setter system finds it when it reaches it.
#[derive(Debug, Clone)]
pub struct DynamicSetterEntry {
    /// The tween's entity.
    pub tween: u64,
    /// How it sets its value; none where the setter is gone by then.
    pub kind: Option<DynamicSetterKind>,
}

/// What the dynamic-setter system does for one tween.
#[derive(Debug, Clone, Copy, PartialEq, Eq, Structural)]
pub enum DynamicSetterAction {
    /// Run the tween's own function on the world.
    RunCustom {
        #[allow(missing_docs)]
        tween: u64,
    },
    /// Apply the tween's value along its path into the component of `entity`.
    ApplyReflected {
        #[allow(missing_docs)]
        tween: u64,
        #[allow(missing_docs)]
        entity: u64,
    },
}

/// Whether the system can handle `e`: a reflected setter of several entities
/// is not supported.
pub open spec fn dynamic_supported(e: DynamicSetterEntry) -> bool {
    !(e.kind matches Some(DynamicSetterKind::Reflect { target: TargetComponent::Entities(_), .. }))
}

/// What the dynamic-setter system does for a tween set `kind`: run a custom
/// setter; apply a reflected one to its single target where every lookup
/// succeeds; nothing otherwise.
pub open spec fn dynamic_action(tween: u64, kind: DynamicSetterKind) -> Option<DynamicSetterAction> {
    match kind {
        DynamicSetterKind::Custom => Some(DynamicSetterAction::RunCustom { tween }),
        DynamicSetterKind::Reflect { target, lookups_succeed } => match target {
            TargetComponent::Entity(entity) => if lookups_succeed {
                Some(DynamicSetterAction::ApplyReflected { tween, entity })
            } else {
                None
            },
            _ => None,
        },
    }
}

/// The actions for the tweens `entries`, in order, up to the first tween
/// whose setter is gone, where the system stops.
pub open spec fn dynamic_actions(entries: Seq<DynamicSetterEntry>) -> Seq<DynamicSetterAction>
    decreases entries.len(),
{
    if entries.len() == 0 {
        Seq::empty()
    } else {
        match entries[0].kind {
            None => Seq::empty(),
            Some(kind) => match dynamic_action(entries[0].tween, kind) {
                Some(a) => seq![a] + dynamic_actions(entries.skip(1)),
                None => dynamic_actions(entries.skip(1)),
            },
        }
    }
}

/// The dynamic-setter system: the actions of [`dynamic_actions`]. A reflected
/// setter of several entities is not supported, and must not be passed.
pub fn dynamic_setter_system(entries: &Vec<DynamicSetterEntry>) -> (r: Vec<DynamicSetterAction>)
    requires
        forall|i: int| 0 <= i < entries.len() ==> dynamic_supported(#[trigger] entries@[i]),
    ensures
        r@ == dynamic_actions(entries@),
{
    let mut actions: Vec<DynamicSetterAction> = Vec::new();
    let mut i: usize = 0;
    proof {
        assert(entries@.skip(0) == entries@);
    }
    while i < entries.len()
        invariant
            i <= entries.len(),
            forall|k: int| 0 <= k < entries.len() ==> dynamic_supported(#[trigger] entries@[k]),
            actions@ + dynamic_actions(entries@.skip(i as int)) == dynamic_actions(entries@),
        decreases entries.len() - i,
    {
        proof {
            assert(entries@.skip(i as int)[0] == entries@[i as int]);
            assert(entries@.skip(i as int).skip(1) == entries@.skip(i as int + 1));
        }
        let e = &entries[i];
        let ghost before = actions@;
        match &e.kind {
            None => {
                proof {
                    assert(actions@ + Seq::<DynamicSetterAction>::empty() == actions@);
                }
                return actions;
            },
            Some(DynamicSetterKind::Custom) => {
                actions.push(DynamicSetterAction::RunCustom { tween: e.tween });
                proof {
                    assert(before + (seq![DynamicSetterAction::RunCustom { tween: e.tween }] + dynamic_actions(
                        entries@.skip(i as int + 1),
                    )) == actions@ + dynamic_actions(entries@.skip(i as int + 1)));
                }
            },
            Some(DynamicSetterKind::Reflect { target, lookups_succeed }) => match target {
                TargetComponent::Entity(entity) => {
                    if *lookups_succeed {
                        let a = DynamicSetterAction::ApplyReflected { tween: e.tween, entity: *entity };
                        actions.push(a);
                        proof {
                            assert(before + (seq![a] + dynamic_actions(entries@.skip(i as int + 1))) == actions@
                                + dynamic_actions(entries@.skip(i as int + 1)));
                        }
                    }
                },
                _ => {},
            },
        }
        i += 1;
    }
    proof {
        assert(dynamic_actions(entries@.skip(i as int)) == Seq::<DynamicSetterAction>::empty());
        assert(actions@ + Seq::<DynamicSetterAction>::empty() == actions@);
    }
    actions
}

/// Every target written is one the tween targets, found where it was looked
/// for, and the writes are the targets in order up to the first missing one.
pub proof fn lemma_writes_are_found_targets<T>(targets: Seq<T>, available: Seq<T>)
    ensures
        until_missing(targets, available).len() <= targets.len(),
        forall|i: int|
            0 <= i < until_missing(targets, available).len() ==> #[trigger] until_missing(targets, available)[i]
                == targets[i] && available.contains(targets[i]),
        until_missing(targets, available).len() < targets.len() ==> !available.contains(
            targets[until_missing(targets, available).len() as int],
        ),
    decreases targets.len(),
{
    if targets.len() > 0 && available.contains(targets[0]) {
        lemma_writes_are_found_targets(targets.skip(1), available);
        let rest = until_missing(targets.skip(1), available);
        assert forall|i: int| 0 <= i < until_missing(targets, available).len() implies #[trigger] until_missing(
            targets,
            available,
        )[i] == targets[i] && available.contains(targets[i]) by {
            if i > 0 {
                assert(until_missing(targets, available)[i] == rest[i - 1]);
            }
        }
    }
}

/// Where every target can be found, every target is written.
pub proof fn lemma_all_found_all_written<T>(targets: Seq<T>, available: Seq<T>)
    requires
        forall|i: int| 0 <= i < targets.len() ==> available.contains(#[trigger] targets[i]),
    ensures
        until_missing(targets, available) == targets,
    decreases targets.len(),
{
    if targets.len() > 0 {
        assert(available.contains(targets[0]));
        assert forall|i: int| 0 <= i < targets.skip(1).len() implies available.contains(#[trigger] targets.skip(1)[i]) by {
            assert(targets.skip(1)[i] == targets[i + 1]);
        }
        lemma_all_found_all_written(targets.skip(1), available);
        assert(seq![targets[0]] + targets.skip(1) == targets);
    }
}

} // verus!
