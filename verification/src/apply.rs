//! What the systems that apply tweens do: which targets receive a tween's
//! value, and which failures they report. A failure is reported once while it
//! persists from one run to the next.
use vstd::prelude::*;

verus! {

/// The entities whose component a tween sets.
#[derive(Debug, Clone)]
pub enum TargetComponent {
    /// No entity.
    NoTarget,
    /// One entity.
    Entity(u64),
    /// Several entities.
    Entities(Vec<u64>),
}

impl TargetComponent {
    /// Target one entity.
    pub fn entity(entity: u64) -> (r: TargetComponent)
        ensures
            r == TargetComponent::Entity(entity),
    {
        TargetComponent::Entity(entity)
    }

    /// Target several entities.
    pub fn entities(entities: Vec<u64>) -> (r: TargetComponent)
        ensures
            r matches TargetComponent::Entities(v) && v@ == entities@,
    {
        TargetComponent::Entities(entities)
    }
}

impl Default for TargetComponent {
    /// No entity.
    fn default() -> (r: TargetComponent)
        ensures
            r == TargetComponent::NoTarget,
    {
        TargetComponent::NoTarget
    }
}

impl From<u64> for TargetComponent {
    /// Target the one entity `value`.
    fn from(value: u64) -> (r: TargetComponent) {
        TargetComponent::Entity(value)
    }
}

impl vstd::std_specs::convert::FromSpecImpl<u64> for TargetComponent {
    open spec fn obeys_from_spec() -> bool {
        true
    }

    open spec fn from_spec(value: u64) -> TargetComponent {
        TargetComponent::Entity(value)
    }
}

/// The resource a tween sets.
#[derive(Debug, Clone, Copy, PartialEq, Eq, Hash, Structural)]
pub struct TargetResource;

impl Default for TargetResource {
    /// The resource.
    fn default() -> (r: TargetResource)
        ensures
            r == TargetResource,
    {
        TargetResource
    }
}

impl TargetResource {
    /// Target the resource.
    pub fn new() -> (r: TargetResource)
        ensures
            r == TargetResource,
    {
        TargetResource
    }
}

/// The assets a tween sets, by id.
#[derive(Debug, Clone)]
pub enum TargetAsset {
    /// No asset.
    NoTarget,
    /// One asset.
    Asset(u128),
    /// Several assets.
    Assets(Vec<u128>),
}

impl TargetAsset {
    /// Target one asset.
    pub fn asset(asset: u128) -> (r: TargetAsset)
        ensures
            r == TargetAsset::Asset(asset),
    {
        TargetAsset::Asset(asset)
    }

    /// Target several assets.
    pub fn assets(assets: Vec<u128>) -> (r: TargetAsset)
        ensures
            r matches TargetAsset::Assets(v) && v@ == assets@,
    {
        TargetAsset::Assets(assets)
    }
}

/// What an applying system does.
#[derive(Debug, Clone, Copy, PartialEq, Eq, Structural)]
pub enum ApplyAction {
    /// Set the value of `tween` into the component of `entity`.
    SetComponent {
        #[allow(missing_docs)]
        tween: u64,
        #[allow(missing_docs)]
        entity: u64,
    },
    /// Set the value of `tween` into the resource.
    SetResource {
        #[allow(missing_docs)]
        tween: u64,
    },
    /// Set the value of `tween` into the asset `asset`.
    SetAsset {
        #[allow(missing_docs)]
        tween: u64,
        #[allow(missing_docs)]
        asset: u128,
    },
    /// Report that querying the target of `tween` failed with `error`.
    ReportQueryError {
        #[allow(missing_docs)]
        tween: u64,
        #[allow(missing_docs)]
        error: u64,
    },
    /// Report that the asset `asset` does not exist.
    ReportMissingAsset {
        #[allow(missing_docs)]
        asset: u128,
    },
    /// Report that the resource, or the asset collection, does not exist.
    ReportMissingResource,
}

/// The error last recorded for `tween` among the pairs `errors`, if any.
pub open spec fn latest_error(errors: Seq<(u64, u64)>, tween: u64) -> Option<u64>
    decreases errors.len(),
{
    if errors.len() == 0 {
        None
    } else if errors.last().0 == tween {
        Some(errors.last().1)
    } else {
        latest_error(errors.drop_last(), tween)
    }
}

/// A tween of a component, as the component-applying system sees it.
#[derive(Debug, Clone)]
pub struct ComponentTweenEntry {
    /// The tween's entity.
    pub tween: u64,
    /// Its target.
    pub target: TargetComponent,
    /// For a single target, the error of querying its component, if any.
    pub query_error: Option<u64>,
    /// For several targets, the entities that have the component.
    pub with_component: Vec<u64>,
}

/// Setting `tween`'s value into each of `entities` that is among
/// `with_component`, in order; the others are passed over.
pub open spec fn set_each(tween: u64, entities: Seq<u64>, with_component: Seq<u64>) -> Seq<ApplyAction>
    decreases entities.len(),
{
    if entities.len() == 0 {
        Seq::empty()
    } else if with_component.contains(entities.last()) {
        set_each(tween, entities.drop_last(), with_component).push(
            ApplyAction::SetComponent { tween, entity: entities.last() },
        )
    } else {
        set_each(tween, entities.drop_last(), with_component)
    }
}

/// The actions for the component tweens `entries`, in order, and the query
/// errors recorded, given those recorded at the previous run (`last`). A tween
/// of one entity sets it, or, where the query failed, records the error and
/// reports it unless the same error was recorded for the tween at the previous
/// run or earlier in this one. A tween of several entities sets each of them
/// that has the component, and passes over the others.
pub open spec fn component_actions(entries: Seq<ComponentTweenEntry>, last: Seq<(u64, u64)>) -> (Seq<ApplyAction>, Seq<(u64, u64)>)
    decreases entries.len(),
{
    if entries.len() == 0 {
        (Seq::empty(), Seq::empty())
    } else {
        let (rest, errors) = component_actions(entries.drop_last(), last);
        let e = entries.last();
        match e.target {
            TargetComponent::NoTarget => (rest, errors),
            TargetComponent::Entity(target) => match e.query_error {
                None => (rest.push(ApplyAction::SetComponent { tween: e.tween, entity: target }), errors),
                Some(err) => {
                    let report = latest_error(last, e.tween) != Some(err) && latest_error(errors, e.tween) != Some(err);
                    (
                        if report { rest.push(ApplyAction::ReportQueryError { tween: e.tween, error: err }) } else { rest },
                        errors.push((e.tween, err)),
                    )
                },
            },
            TargetComponent::Entities(v) => (rest + set_each(e.tween, v@, e.with_component@), errors),
        }
    }
}

/// Whether `id` is among `ids`.
fn contains_entity(ids: &Vec<u64>, id: u64) -> (r: bool)
    ensures
        r == ids@.contains(id),
{
    let mut i: usize = 0;
    while i < ids.len()
        invariant
            i <= ids.len(),
            forall|j: int| 0 <= j < i ==> ids@[j] != id,
        decreases ids.len() - i,
    {
        if ids[i] == id {
            return true;
        }
        i += 1;
    }
    false
}

/// The error last recorded for `tween` among `errors`.
fn find_latest_error(errors: &Vec<(u64, u64)>, tween: u64) -> (r: Option<u64>)
    ensures
        r == latest_error(errors@, tween),
{
    let mut i = errors.len();
    proof {
        assert(errors@.take(i as int) == errors@);
    }
    while i > 0
        invariant
            i <= errors.len(),
            latest_error(errors@, tween) == latest_error(errors@.take(i as int), tween),
        decreases i,
    {
        proof {
            assert(errors@.take(i as int).drop_last() == errors@.take(i - 1));
        }
        let (t, err) = errors[i - 1];
        if t == tween {
            return Some(err);
        }
        i = i - 1;
    }
    None
}

/// The component-applying system: the actions of [`component_actions`]. The
/// query errors recorded in this run replace those of the previous run in
/// `last_entity_errors`.
pub fn apply_component_tween_system(
    entries: &Vec<ComponentTweenEntry>,
    last_entity_errors: &mut Vec<(u64, u64)>,
) -> (r: Vec<ApplyAction>)
    ensures
        r@ == component_actions(entries@, old(last_entity_errors)@).0,
        final(last_entity_errors)@ == component_actions(entries@, old(last_entity_errors)@).1,
{
    let ghost last = last_entity_errors@;
    let mut actions: Vec<ApplyAction> = Vec::new();
    let mut errors: Vec<(u64, u64)> = Vec::new();
    let mut i: usize = 0;
    while i < entries.len()
        invariant
            i <= entries.len(),
            last == last_entity_errors@,
            actions@ == component_actions(entries@.take(i as int), last).0,
            errors@ == component_actions(entries@.take(i as int), last).1,
        decreases entries.len() - i,
    {
        proof {
            assert(entries@.take(i as int + 1).drop_last() == entries@.take(i as int));
        }
        let e = &entries[i];
        match &e.target {
            TargetComponent::NoTarget => {},
            TargetComponent::Entity(target) => match e.query_error {
                None => {
                    actions.push(ApplyAction::SetComponent { tween: e.tween, entity: *target });
                },
                Some(err) => {
                    let last_err = find_latest_error(last_entity_errors, e.tween);
                    let now_err = find_latest_error(&errors, e.tween);
                    let differs_last = match last_err {
                        Some(x) => x != err,
                        None => true,
                    };
                    let differs_now = match now_err {
                        Some(x) => x != err,
                        None => true,
                    };
                    if differs_last && differs_now {
                        actions.push(ApplyAction::ReportQueryError { tween: e.tween, error: err });
                    }
                    errors.push((e.tween, err));
                },
            },
            TargetComponent::Entities(v) => {
                let ghost before = actions@;
                let mut j: usize = 0;
                while j < v.len()
                    invariant
                        j <= v.len(),
                        actions@ == before + set_each(e.tween, v@.take(j as int), e.with_component@),
                    decreases v.len() - j,
                {
                    proof {
                        assert(v@.take(j as int + 1).drop_last() == v@.take(j as int));
                    }
                    if contains_entity(&e.with_component, v[j]) {
                        actions.push(ApplyAction::SetComponent { tween: e.tween, entity: v[j] });
                    }
                    j += 1;
                }
                proof {
                    assert(v@.take(v@.len() as int) == v@);
                }
            },
        }
        i += 1;
    }
    proof {
        assert(entries@.take(entries@.len() as int) == entries@);
    }
    *last_entity_errors = errors;
    actions
}

/// Setting the value of each of `tweens` into the resource, in order.
pub open spec fn set_resource_each(tweens: Seq<u64>) -> Seq<ApplyAction>
    decreases tweens.len(),
{
    if tweens.len() == 0 {
        Seq::empty()
    } else {
        set_resource_each(tweens.drop_last()).push(ApplyAction::SetResource { tween: tweens.last() })
    }
}

/// The resource-applying system. Where the resource exists, every tween sets
/// it and the missing resource is no longer remembered; where it does not, its
/// absence is reported unless it was already missing at the previous run, and
/// remembered.
pub fn apply_resource_tween_system(resource_exists: bool, tweens: &Vec<u64>, last_error: &mut bool) -> (r: Vec<ApplyAction>)
    ensures
        !resource_exists ==> *final(last_error) && r@ == if *old(last_error) {
            Seq::<ApplyAction>::empty()
        } else {
            seq![ApplyAction::ReportMissingResource]
        },
        resource_exists ==> !*final(last_error) && r@ == set_resource_each(tweens@),
{
    let mut actions: Vec<ApplyAction> = Vec::new();
    if !resource_exists {
        if !*last_error {
            actions.push(ApplyAction::ReportMissingResource);
            *last_error = true;
        }
        return actions;
    }
    *last_error = false;
    let mut i: usize = 0;
    while i < tweens.len()
        invariant
            i <= tweens.len(),
            actions@ == set_resource_each(tweens@.take(i as int)),
        decreases tweens.len() - i,
    {
        proof {
            assert(tweens@.take(i as int + 1).drop_last() == tweens@.take(i as int));
        }
        actions.push(ApplyAction::SetResource { tween: tweens[i] });
        i += 1;
    }
    proof {
        assert(tweens@.take(tweens@.len() as int) == tweens@);
    }
    actions
}

/// A tween of assets, as the asset-applying system sees it.
#[derive(Debug, Clone)]
pub struct AssetTweenEntry {
    /// The tween's entity.
    pub tween: u64,
    /// Its target.
    pub target: TargetAsset,
}

/// The target of a tween of the assets that components hold handles to, with
/// the handles already looked up.
#[derive(Debug)]
pub enum HandleTarget {
    /// No entity.
    NoTarget,
    /// One entity: the asset id of its handle, or the error of querying it.
    Entity(Result<u128, u64>),
    /// Several entities: the asset ids of the handles of those that have one.
    Entities(Vec<u128>),
}

/// A tween of the assets that components hold handles to.
#[derive(Debug)]
pub struct HandleTweenEntry {
    /// The tween's entity.
    pub tween: u64,
    /// Its target.
    pub target: HandleTarget,
}

/// The state of an applying system part way through its tweens: the actions
/// so far, the missing assets recorded, the query errors recorded.
pub type ApplyState = (Seq<ApplyAction>, Seq<u128>, Seq<(u64, u64)>);

/// Record that `asset` is missing, reporting it unless it was missing at the
/// previous run (`last`) or earlier in this one.
pub open spec fn asset_missing(asset: u128, last: Seq<u128>, st: ApplyState) -> ApplyState {
    (
        if !last.contains(asset) && !st.1.contains(asset) {
            st.0.push(ApplyAction::ReportMissingAsset { asset })
        } else {
            st.0
        },
        st.1.push(asset),
        st.2,
    )
}

/// Set `tween`'s value into each of the assets `ids` in order, stopping at the
/// first that is not among `loaded`, which is recorded as missing.
pub open spec fn assets_each(tween: u64, ids: Seq<u128>, loaded: Seq<u128>, last: Seq<u128>, st: ApplyState) -> ApplyState
    decreases ids.len(),
{
    if ids.len() == 0 {
        st
    } else if loaded.contains(ids[0]) {
        assets_each(tween, ids.skip(1), loaded, last, (st.0.push(ApplyAction::SetAsset { tween, asset: ids[0] }), st.1, st.2))
    } else {
        asset_missing(ids[0], last, st)
    }
}

/// The state after the asset tweens `entries`, given the loaded assets and the
/// assets missing at the previous run.
pub open spec fn asset_actions(entries: Seq<AssetTweenEntry>, loaded: Seq<u128>, last: Seq<u128>) -> ApplyState
    decreases entries.len(),
{
    if entries.len() == 0 {
        (Seq::empty(), Seq::empty(), Seq::empty())
    } else {
        let st = asset_actions(entries.drop_last(), loaded, last);
        let e = entries.last();
        match e.target {
            TargetAsset::NoTarget => st,
            TargetAsset::Asset(id) => assets_each(e.tween, seq![id], loaded, last, st),
            TargetAsset::Assets(ids) => assets_each(e.tween, ids@, loaded, last, st),
        }
    }
}

/// The state after the handle tweens `entries`, given the loaded assets, the
/// assets missing at the previous run and the query errors of the previous
/// run. A query error is recorded, and reported unless the same error was
/// recorded for the tween at the previous run or earlier in this one.
pub open spec fn handle_actions(
    entries: Seq<HandleTweenEntry>,
    loaded: Seq<u128>,
    last_assets: Seq<u128>,
    last_errors: Seq<(u64, u64)>,
) -> ApplyState
    decreases entries.len(),
{
    if entries.len() == 0 {
        (Seq::empty(), Seq::empty(), Seq::empty())
    } else {
        let st = handle_actions(entries.drop_last(), loaded, last_assets, last_errors);
        let e = entries.last();
        match e.target {
            HandleTarget::NoTarget => st,
            HandleTarget::Entity(Ok(id)) => assets_each(e.tween, seq![id], loaded, last_assets, st),
            HandleTarget::Entity(Err(err)) => {
                let report = latest_error(last_errors, e.tween) != Some(err) && latest_error(st.2, e.tween) != Some(err);
                (
                    if report { st.0.push(ApplyAction::ReportQueryError { tween: e.tween, error: err }) } else { st.0 },
                    st.1,
                    st.2.push((e.tween, err)),
                )
            },
            HandleTarget::Entities(ids) => assets_each(e.tween, ids@, loaded, last_assets, st),
        }
    }
}

/// Whether `id` is among `ids`.
fn contains_asset(ids: &Vec<u128>, id: u128) -> (r: bool)
    ensures
        r == ids@.contains(id),
{
    let mut i: usize = 0;
    while i < ids.len()
        invariant
            i <= ids.len(),
            forall|j: int| 0 <= j < i ==> ids@[j] != id,
        decreases ids.len() - i,
    {
        if ids[i] == id {
            return true;
        }
        i += 1;
    }
    false
}

/// Set `tween`'s value into the assets `ids`: see [`assets_each`].
fn apply_to_assets(
    tween: u64,
    ids: &Vec<u128>,
    loaded: &Vec<u128>,
    last: &Vec<u128>,
    actions: &mut Vec<ApplyAction>,
    asset_errors: &mut Vec<u128>,
    entity_errors: &Vec<(u64, u64)>,
)
    ensures
        (final(actions)@, final(asset_errors)@, entity_errors@)
            == assets_each(tween, ids@, loaded@, last@, (old(actions)@, old(asset_errors)@, entity_errors@)),
{
    let ghost target = assets_each(tween, ids@, loaded@, last@, (actions@, asset_errors@, entity_errors@));
    let mut j: usize = 0;
    proof {
        assert(ids@.skip(0) == ids@);
    }
    while j < ids.len()
        invariant
            j <= ids.len(),
            target == assets_each(tween, ids@.skip(j as int), loaded@, last@, (actions@, asset_errors@, entity_errors@)),
            target == assets_each(tween, ids@, loaded@, last@, (old(actions)@, old(asset_errors)@, entity_errors@)),
        decreases ids.len() - j,
    {
        let id = ids[j];
        proof {
            assert(ids@.skip(j as int)[0] == id);
            assert(ids@.skip(j as int).skip(1) == ids@.skip(j as int + 1));
        }
        if contains_asset(loaded, id) {
            actions.push(ApplyAction::SetAsset { tween, asset: id });
        } else {
            let ghost st = (actions@, asset_errors@, entity_errors@);
            proof {
                assert(target == asset_missing(id, last@, st));
            }
            let seen_last = contains_asset(last, id);
            let seen_now = contains_asset(asset_errors, id);
            if !seen_last && !seen_now {
                actions.push(ApplyAction::ReportMissingAsset { asset: id });
            }
            asset_errors.push(id);
            proof {
                assert(actions@ =~= asset_missing(id, last@, st).0);
                assert(asset_errors@ =~= asset_missing(id, last@, st).1);
            }
            return;
        }
        j += 1;
    }
}

/// The asset-applying system. Where the asset collection does not exist, its
/// absence is reported unless it was already missing at the previous run, and
/// remembered; nothing else happens and the missing assets of the previous
/// run are kept. Where it exists, its absence is forgotten, the actions are
/// those of [`asset_actions`] and the assets found missing in this run replace
/// those of the previous run in `last_asset_errors`.
pub fn apply_asset_tween_system(
    assets_exist: bool,
    entries: &Vec<AssetTweenEntry>,
    loaded: &Vec<u128>,
    last_resource_error: &mut bool,
    last_asset_errors: &mut Vec<u128>,
) -> (r: Vec<ApplyAction>)
    ensures
        !assets_exist ==> *final(last_resource_error) && final(last_asset_errors)@ == old(last_asset_errors)@
            && r@ == if *old(last_resource_error) {
                Seq::<ApplyAction>::empty()
            } else {
                seq![ApplyAction::ReportMissingResource]
            },
        assets_exist ==> !*final(last_resource_error)
            && r@ == asset_actions(entries@, loaded@, old(last_asset_errors)@).0
            && final(last_asset_errors)@ == asset_actions(entries@, loaded@, old(last_asset_errors)@).1,
{
    let mut actions: Vec<ApplyAction> = Vec::new();
    if !assets_exist {
        if !*last_resource_error {
            actions.push(ApplyAction::ReportMissingResource);
            *last_resource_error = true;
        }
        return actions;
    }
    *last_resource_error = false;
    let ghost last = last_asset_errors@;
    let mut asset_errors: Vec<u128> = Vec::new();
    let no_errors: Vec<(u64, u64)> = Vec::new();
    let mut i: usize = 0;
    while i < entries.len()
        invariant
            i <= entries.len(),
            last == last_asset_errors@,
            no_errors@ == Seq::<(u64, u64)>::empty(),
            (actions@, asset_errors@, no_errors@) == asset_actions(entries@.take(i as int), loaded@, last),
        decreases entries.len() - i,
    {
        proof {
            assert(entries@.take(i as int + 1).drop_last() == entries@.take(i as int));
        }
        let e = &entries[i];
        match &e.target {
            TargetAsset::NoTarget => {},
            TargetAsset::Asset(id) => {
                let one = vec![*id];
                proof {
                    assert(one@ == seq![*id]);
                }
                apply_to_assets(e.tween, &one, loaded, last_asset_errors, &mut actions, &mut asset_errors, &no_errors);
            },
            TargetAsset::Assets(ids) => {
                apply_to_assets(e.tween, ids, loaded, last_asset_errors, &mut actions, &mut asset_errors, &no_errors);
            },
        }
        i += 1;
    }
    proof {
        assert(entries@.take(entries@.len() as int) == entries@);
    }
    *last_asset_errors = asset_errors;
    actions
}

/// The handle-applying system, for tweens of the assets that components hold
/// handles to. Where the asset collection does not exist, its absence is
/// reported unless it was already missing at the previous run, and remembered;
/// nothing else happens and the errors of the previous run are kept. Where it
/// exists, its absence is forgotten, the actions are those of
/// [`handle_actions`], and the missing assets and query errors found in this
/// run replace those of the previous run.
pub fn apply_handle_component_tween_system(
    assets_exist: bool,
    entries: &Vec<HandleTweenEntry>,
    loaded: &Vec<u128>,
    last_resource_error: &mut bool,
    last_asset_errors: &mut Vec<u128>,
    last_entity_errors: &mut Vec<(u64, u64)>,
) -> (r: Vec<ApplyAction>)
    ensures
        !assets_exist ==> *final(last_resource_error) && final(last_asset_errors)@ == old(last_asset_errors)@
            && final(last_entity_errors)@ == old(last_entity_errors)@
            && r@ == if *old(last_resource_error) {
                Seq::<ApplyAction>::empty()
            } else {
                seq![ApplyAction::ReportMissingResource]
            },
        assets_exist ==> ({
            let st = handle_actions(entries@, loaded@, old(last_asset_errors)@, old(last_entity_errors)@);
            &&& !*final(last_resource_error)
            &&& r@ == st.0
            &&& final(last_asset_errors)@ == st.1
            &&& final(last_entity_errors)@ == st.2
        }),
{
    let mut actions: Vec<ApplyAction> = Vec::new();
    if !assets_exist {
        if !*last_resource_error {
            actions.push(ApplyAction::ReportMissingResource);
            *last_resource_error = true;
        }
        return actions;
    }
    *last_resource_error = false;
    let ghost last_assets = last_asset_errors@;
    let ghost last_errors = last_entity_errors@;
    let mut asset_errors: Vec<u128> = Vec::new();
    let mut entity_errors: Vec<(u64, u64)> = Vec::new();
    let mut i: usize = 0;
    while i < entries.len()
        invariant
            i <= entries.len(),
            last_assets == last_asset_errors@,
            last_errors == last_entity_errors@,
            (actions@, asset_errors@, entity_errors@) == handle_actions(entries@.take(i as int), loaded@, last_assets, last_errors),
        decreases entries.len() - i,
    {
        proof {
            assert(entries@.take(i as int + 1).drop_last() == entries@.take(i as int));
        }
        let e = &entries[i];
        match &e.target {
            HandleTarget::NoTarget => {},
            HandleTarget::Entity(Ok(id)) => {
                let one = vec![*id];
                proof {
                    assert(one@ == seq![*id]);
                }
                apply_to_assets(e.tween, &one, loaded, last_asset_errors, &mut actions, &mut asset_errors, &entity_errors);
            },
            HandleTarget::Entity(Err(err)) => {
                let last_err = find_latest_error(last_entity_errors, e.tween);
                let now_err = find_latest_error(&entity_errors, e.tween);
                let differs_last = match last_err {
                    Some(x) => x != *err,
                    None => true,
                };
                let differs_now = match now_err {
                    Some(x) => x != *err,
                    None => true,
                };
                if differs_last && differs_now {
                    actions.push(ApplyAction::ReportQueryError { tween: e.tween, error: *err });
                }
                entity_errors.push((e.tween, *err));
            },
            HandleTarget::Entities(ids) => {
                apply_to_assets(e.tween, ids, loaded, last_asset_errors, &mut actions, &mut asset_errors, &entity_errors);
            },
        }
        i += 1;
    }
    proof {
        assert(entries@.take(entries@.len() as int) == entries@);
    }
    *last_asset_errors = asset_errors;
    *last_entity_errors = entity_errors;
    actions
}

/// Whether every missing asset reported in `actions` is reported once only,
/// was not missing at the previous run (`last`), and is among the assets
/// recorded missing in this run (`missing`).
pub open spec fn missing_reported_once(actions: Seq<ApplyAction>, last: Seq<u128>, missing: Seq<u128>) -> bool {
    forall|i: int| #![trigger actions[i]] 0 <= i < actions.len() ==> match actions[i] {
        ApplyAction::ReportMissingAsset { asset } => {
            &&& !last.contains(asset)
            &&& missing.contains(asset)
            &&& forall|j: int| 0 <= j < actions.len() && j != i ==> actions[j] != (ApplyAction::ReportMissingAsset { asset })
        },
        _ => true,
    }
}

/// Appending an action other than a missing-asset report, and recording more
/// missing assets, keep [`missing_reported_once`].
proof fn lemma_push_other_keeps(actions: Seq<ApplyAction>, a: ApplyAction, last: Seq<u128>, missing: Seq<u128>, more: Seq<u128>)
    requires
        missing_reported_once(actions, last, missing),
        !(a is ReportMissingAsset),
        forall|x: u128| missing.contains(x) ==> more.contains(x),
    ensures
        missing_reported_once(actions.push(a), last, more),
{
    let acts = actions.push(a);
    assert forall|i: int| #![trigger acts[i]] 0 <= i < acts.len() implies match acts[i] {
        ApplyAction::ReportMissingAsset { asset } => {
            &&& !last.contains(asset)
            &&& more.contains(asset)
            &&& forall|j: int| 0 <= j < acts.len() && j != i ==> acts[j] != (ApplyAction::ReportMissingAsset { asset })
        },
        _ => true,
    } by {
        if i < actions.len() {
            assert(acts[i] == actions[i]);
            if let ApplyAction::ReportMissingAsset { asset } = acts[i] {
                assert forall|j: int| 0 <= j < acts.len() && j != i implies acts[j] != (ApplyAction::ReportMissingAsset { asset }) by {
                    if j < actions.len() {
                        assert(acts[j] == actions[j]);
                    }
                }
            }
        }
    }
}

/// Recording a missing asset keeps [`missing_reported_once`].
proof fn lemma_asset_missing_keeps(asset: u128, last: Seq<u128>, st: ApplyState)
    requires
        missing_reported_once(st.0, last, st.1),
    ensures
        missing_reported_once(asset_missing(asset, last, st).0, last, asset_missing(asset, last, st).1),
{
    let next = asset_missing(asset, last, st);
    assert forall|x: u128| st.1.contains(x) implies next.1.contains(x) by {
        let k = choose|k: int| 0 <= k < st.1.len() && st.1[k] == x;
        assert(next.1[k] == x);
    }
    assert(next.1[st.1.len() as int] == asset);
    if !last.contains(asset) && !st.1.contains(asset) {
        let acts = next.0;
        assert forall|i: int| #![trigger acts[i]] 0 <= i < acts.len() implies match acts[i] {
            ApplyAction::ReportMissingAsset { asset } => {
                &&& !last.contains(asset)
                &&& next.1.contains(asset)
                &&& forall|j: int| 0 <= j < acts.len() && j != i ==> acts[j] != (ApplyAction::ReportMissingAsset { asset })
            },
            _ => true,
        } by {
            if i < st.0.len() {
                assert(acts[i] == st.0[i]);
                if let ApplyAction::ReportMissingAsset { asset: b } = acts[i] {
                    assert forall|j: int| 0 <= j < acts.len() && j != i implies acts[j] != (ApplyAction::ReportMissingAsset { asset: b }) by {
                        if j < st.0.len() {
                            assert(acts[j] == st.0[j]);
                        }
                    }
                }
            } else {
                assert forall|j: int| 0 <= j < acts.len() && j != i implies acts[j] != (ApplyAction::ReportMissingAsset { asset }) by {
                    assert(acts[j] == st.0[j]);
                    if let ApplyAction::ReportMissingAsset { asset: c } = st.0[j] {
                        assert(st.1.contains(c));
                    }
                }
            }
        }
    }
}

/// Setting a tween's value into assets, stopping at the first missing one,
/// keeps [`missing_reported_once`].
proof fn lemma_assets_each_keeps(tween: u64, ids: Seq<u128>, loaded: Seq<u128>, last: Seq<u128>, st: ApplyState)
    requires
        missing_reported_once(st.0, last, st.1),
    ensures
        missing_reported_once(
            assets_each(tween, ids, loaded, last, st).0,
            last,
            assets_each(tween, ids, loaded, last, st).1,
        ),
        assets_each(tween, ids, loaded, last, st).2 == st.2,
    decreases ids.len(),
{
    if ids.len() > 0 {
        if loaded.contains(ids[0]) {
            lemma_push_other_keeps(st.0, ApplyAction::SetAsset { tween, asset: ids[0] }, last, st.1, st.1);
            lemma_assets_each_keeps(
                tween,
                ids.skip(1),
                loaded,
                last,
                (st.0.push(ApplyAction::SetAsset { tween, asset: ids[0] }), st.1, st.2),
            );
        } else {
            lemma_asset_missing_keeps(ids[0], last, st);
        }
    }
}

/// A missing asset is reported at most once per run of the asset-applying
/// system, and not at all while it stays missing from the previous run.
pub proof fn lemma_missing_asset_reported_once(entries: Seq<AssetTweenEntry>, loaded: Seq<u128>, last: Seq<u128>)
    ensures
        missing_reported_once(asset_actions(entries, loaded, last).0, last, asset_actions(entries, loaded, last).1),
    decreases entries.len(),
{
    if entries.len() > 0 {
        lemma_missing_asset_reported_once(entries.drop_last(), loaded, last);
        let st = asset_actions(entries.drop_last(), loaded, last);
        let e = entries.last();
        match e.target {
            TargetAsset::NoTarget => {},
            TargetAsset::Asset(id) => lemma_assets_each_keeps(e.tween, seq![id], loaded, last, st),
            TargetAsset::Assets(ids) => lemma_assets_each_keeps(e.tween, ids@, loaded, last, st),
        }
    }
}

/// A missing asset is reported at most once per run of the handle-applying
/// system, and not at all while it stays missing from the previous run.
pub proof fn lemma_missing_handle_asset_reported_once(
    entries: Seq<HandleTweenEntry>,
    loaded: Seq<u128>,
    last_assets: Seq<u128>,
    last_errors: Seq<(u64, u64)>,
)
    ensures
        missing_reported_once(
            handle_actions(entries, loaded, last_assets, last_errors).0,
            last_assets,
            handle_actions(entries, loaded, last_assets, last_errors).1,
        ),
    decreases entries.len(),
{
    if entries.len() > 0 {
        lemma_missing_handle_asset_reported_once(entries.drop_last(), loaded, last_assets, last_errors);
        let st = handle_actions(entries.drop_last(), loaded, last_assets, last_errors);
        let e = entries.last();
        match e.target {
            HandleTarget::NoTarget => {},
            HandleTarget::Entity(Ok(id)) => lemma_assets_each_keeps(e.tween, seq![id], loaded, last_assets, st),
            HandleTarget::Entity(Err(err)) => {
                let report = latest_error(last_errors, e.tween) != Some(err) && latest_error(st.2, e.tween) != Some(err);
                if report {
                    lemma_push_other_keeps(st.0, ApplyAction::ReportQueryError { tween: e.tween, error: err }, last_assets, st.1, st.1);
                }
            },
            HandleTarget::Entities(ids) => lemma_assets_each_keeps(e.tween, ids@, loaded, last_assets, st),
        }
    }
}

} // verus!
