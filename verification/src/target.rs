//! Resolving animation targets: each resolver walks up its chain of parents to
//! the nearest entity marked as an animation target.
use vstd::prelude::*;

verus! {

/// An entity of the hierarchy, as the resolving system sees it.
#[derive(Debug, Clone, Copy, PartialEq, Eq, Structural)]
pub struct HierarchyNode {
    /// The entity.
    pub entity: u64,
    /// Its parent, if any.
    pub parent: Option<u64>,
    /// Whether it is marked as an animation target.
    pub is_target: bool,
}

/// Where a walk up the parents ends.
#[derive(Debug, Clone, Copy, PartialEq, Eq, Structural)]
pub enum WalkEnd {
    /// At this marked entity.
    Found(u64),
    /// At an unmarked entity without a parent.
    NoParent,
    /// At an entity the hierarchy does not hold.
    Missing,
    /// Not within the steps allowed.
    TooLong,
}

/// The first node of `h` for entity `e`.
pub open spec fn node_of(h: Seq<HierarchyNode>, e: u64) -> Option<HierarchyNode>
    decreases h.len(),
{
    if h.len() == 0 {
        None
    } else if h[0].entity == e {
        Some(h[0])
    } else {
        node_of(h.skip(1), e)
    }
}

/// Where the walk from `e` up the parents ends within `fuel` steps.
pub open spec fn walk(h: Seq<HierarchyNode>, e: u64, fuel: nat) -> WalkEnd
    decreases fuel,
{
    if fuel == 0 {
        WalkEnd::TooLong
    } else {
        match node_of(h, e) {
            None => WalkEnd::Missing,
            Some(n) => if n.is_target {
                WalkEnd::Found(n.entity)
            } else {
                match n.parent {
                    Some(p) => walk(h, p, (fuel - 1) as nat),
                    None => WalkEnd::NoParent,
                }
            },
        }
    }
}

/// Whether the walk from `e` ends at a marked entity or at a root, within as
/// many steps as the hierarchy holds entities: it never meets an entity the
/// hierarchy lacks, nor goes round a cycle.
pub open spec fn walk_ends(h: Seq<HierarchyNode>, e: u64) -> bool {
    walk(h, e, h.len()) is Found || walk(h, e, h.len()) is NoParent
}

/// What the resolving system does for one resolver.
#[derive(Debug, Clone, Copy, PartialEq, Eq, Structural)]
pub enum TargetAction {
    /// Point the resolver's target at `target`.
    Resolve {
        #[allow(missing_docs)]
        resolver: u64,
        #[allow(missing_docs)]
        target: u64,
    },
    /// Report that the resolver finds no target among its parents.
    ReportNoTarget {
        #[allow(missing_docs)]
        resolver: u64,
    },
}

/// The actions for `resolvers`, in order, and the resolvers that found no
/// target, given those that found none at the previous run (`last`). A
/// resolver whose walk reaches a marked entity targets it; one whose walk ends
/// at a root is added to those that found none, and is reported unless it
/// found none at the previous run or earlier in this one.
pub open spec fn target_actions(h: Seq<HierarchyNode>, resolvers: Seq<u64>, last: Set<u64>) -> (Seq<TargetAction>, Set<u64>)
    decreases resolvers.len(),
{
    if resolvers.len() == 0 {
        (Seq::empty(), Set::empty())
    } else {
        let (rest, errors) = target_actions(h, resolvers.drop_last(), last);
        let r = resolvers.last();
        match walk(h, r, h.len()) {
            WalkEnd::Found(t) => (rest.push(TargetAction::Resolve { resolver: r, target: t }), errors),
            _ => if !last.contains(r) && !errors.contains(r) {
                (rest.push(TargetAction::ReportNoTarget { resolver: r }), errors.insert(r))
            } else {
                (rest, errors.insert(r))
            },
        }
    }
}

/// The node of entity `e` in `h`, if any.
fn find_node(h: &Vec<HierarchyNode>, e: u64) -> (r: Option<HierarchyNode>)
    ensures
        r == node_of(h@, e),
{
    let mut i: usize = 0;
    proof {
        assert(h@.skip(0) == h@);
    }
    while i < h.len()
        invariant
            i <= h.len(),
            node_of(h@, e) == node_of(h@.skip(i as int), e),
        decreases h.len() - i,
    {
        if h[i].entity == e {
            return Some(h[i]);
        }
        proof {
            assert(h@.skip(i as int).skip(1) == h@.skip(i as int + 1));
        }
        i += 1;
    }
    None
}

/// Walk up from `start`: see [`walk`].
fn walk_up(h: &Vec<HierarchyNode>, start: u64) -> (r: Option<u64>)
    requires
        walk_ends(h@, start),
    ensures
        match walk(h@, start, h@.len()) {
            WalkEnd::Found(t) => r == Some(t),
            _ => r is None,
        },
{
    let mut e = start;
    let mut fuel: usize = h.len();
    loop
        invariant
            fuel <= h.len(),
            walk(h@, e, fuel as nat) == walk(h@, start, h@.len()),
            walk(h@, e, fuel as nat) is Found || walk(h@, e, fuel as nat) is NoParent,
        decreases fuel,
    {
        match find_node(h, e) {
            None => {
                return None;
            },
            Some(n) => {
                if n.is_target {
                    return Some(n.entity);
                }
                match n.parent {
                    Some(p) => {
                        e = p;
                        fuel = fuel - 1;
                    },
                    None => {
                        return None;
                    },
                }
            },
        }
    }
}

/// Whether the walk from `start` up the parents ends, at a marked entity or
/// at a root, without meeting an entity the hierarchy lacks or going round a
/// cycle: see [`walk_ends`]. The resolving system may be given only resolvers
/// for which this holds.
pub fn walk_terminates(h: &Vec<HierarchyNode>, start: u64) -> (r: bool)
    ensures
        r == walk_ends(h@, start),
{
    let mut e = start;
    let mut fuel: usize = h.len();
    loop
        invariant
            fuel <= h.len(),
            walk(h@, e, fuel as nat) == walk(h@, start, h@.len()),
        decreases fuel,
    {
        if fuel == 0 {
            return false;
        }
        match find_node(h, e) {
            None => {
                return false;
            },
            Some(n) => {
                if n.is_target {
                    return true;
                }
                match n.parent {
                    Some(p) => {
                        e = p;
                        fuel = fuel - 1;
                    },
                    None => {
                        return true;
                    },
                }
            },
        }
    }
}

/// Whether `id` is among `ids`.
fn contains_entity(ids: &Vec<u64>, id: u64) -> (r: bool)
    ensures
        r == ids@.contains(id),
{
    let mut i: usize = 0;
    while i < ids.len()
        invariant
            i <= ids.len(),
            forall|j: int| 0 <= j < i ==> ids@[j] != id,
        decreases ids.len() - i,
    {
        if ids[i] == id {
            return true;
        }
        i += 1;
    }
    false
}

/// The target-resolving system: the actions of [`target_actions`] for the
/// resolver entities `resolvers` in the hierarchy `hierarchy`. The resolvers
/// that found no target in this run replace those of the previous run in
/// `last_error`.
pub fn resolve_animation_target_system(
    hierarchy: &Vec<HierarchyNode>,
    resolvers: &Vec<u64>,
    last_error: &mut Vec<u64>,
) -> (r: Vec<TargetAction>)
    requires
        forall|i: int| 0 <= i < resolvers.len() ==> walk_ends(hierarchy@, #[trigger] resolvers@[i]),
    ensures
        r@ == target_actions(hierarchy@, resolvers@, old(last_error)@.to_set()).0,
        final(last_error)@.to_set() == target_actions(hierarchy@, resolvers@, old(last_error)@.to_set()).1,
{
    let ghost last = last_error@.to_set();
    let mut actions: Vec<TargetAction> = Vec::new();
    let mut error: Vec<u64> = Vec::new();
    let mut i: usize = 0;
    while i < resolvers.len()
        invariant
            i <= resolvers.len(),
            last == last_error@.to_set(),
            forall|k: int| 0 <= k < resolvers.len() ==> walk_ends(hierarchy@, #[trigger] resolvers@[k]),
            actions@ == target_actions(hierarchy@, resolvers@.take(i as int), last).0,
            error@.to_set() == target_actions(hierarchy@, resolvers@.take(i as int), last).1,
        decreases resolvers.len() - i,
    {
        proof {
            assert(resolvers@.take(i as int + 1).drop_last() == resolvers@.take(i as int));
        }
        let resolver = resolvers[i];
        match walk_up(hierarchy, resolver) {
            Some(t) => {
                actions.push(TargetAction::Resolve { resolver, target: t });
            },
            None => {
                let seen_last = contains_entity(last_error, resolver);
                let seen_now = contains_entity(&error, resolver);
                if !seen_last && !seen_now {
                    actions.push(TargetAction::ReportNoTarget { resolver });
                }
                let ghost before = error@;
                error.push(resolver);
                proof {
                    assert(error@.to_set() == before.to_set().insert(resolver)) by {
                        assert forall|x: u64| error@.to_set().contains(x) <==> before.to_set().insert(resolver).contains(x) by {
                            if x == resolver {
                                assert(error@[before.len() as int] == x);
                            } else if error@.contains(x) {
                                let j = choose|j: int| 0 <= j < error@.len() && error@[j] == x;
                                assert(before[j] == x);
                            } else if before.contains(x) {
                                let j = choose|j: int| 0 <= j < before.len() && before[j] == x;
                                assert(error@[j] == x);
                            }
                        }
                    }
                }
            },
        }
        i += 1;
    }
    proof {
        assert(resolvers@.take(resolvers@.len() as int) == resolvers@);
    }
    *last_error = error;
    actions
}

/// Whether every resolver reported in `actions` is reported once only, did
/// not fail at the previous run (`last`), and is among the failures of this
/// run (`errors`).
pub open spec fn reported_once(actions: Seq<TargetAction>, last: Set<u64>, errors: Set<u64>) -> bool {
    forall|i: int| #![trigger actions[i]] 0 <= i < actions.len() ==> match actions[i] {
        TargetAction::ReportNoTarget { resolver } => {
            &&& !last.contains(resolver)
            &&& errors.contains(resolver)
            &&& forall|j: int| 0 <= j < actions.len() && j != i ==> actions[j] != (TargetAction::ReportNoTarget { resolver })
        },
        _ => true,
    }
}

/// A resolver that finds no target is reported at most once per run, and not
/// at all while it keeps failing from the previous run.
pub proof fn lemma_missing_target_reported_once(h: Seq<HierarchyNode>, resolvers: Seq<u64>, last: Set<u64>)
    ensures
        reported_once(target_actions(h, resolvers, last).0, last, target_actions(h, resolvers, last).1),
    decreases resolvers.len(),
{
    if resolvers.len() > 0 {
        lemma_missing_target_reported_once(h, resolvers.drop_last(), last);
        let (rest, errors) = target_actions(h, resolvers.drop_last(), last);
        let (acts, errs) = target_actions(h, resolvers, last);
        assert forall|i: int| #![trigger acts[i]] 0 <= i < acts.len() implies match acts[i] {
            TargetAction::ReportNoTarget { resolver } => {
                &&& !last.contains(resolver)
                &&& errs.contains(resolver)
                &&& forall|j: int| 0 <= j < acts.len() && j != i ==> acts[j] != (TargetAction::ReportNoTarget { resolver })
            },
            _ => true,
        } by {
            if i < rest.len() {
                assert(acts[i] == rest[i]);
                if let TargetAction::ReportNoTarget { resolver } = acts[i] {
                    assert forall|j: int| 0 <= j < acts.len() && j != i implies acts[j] != (TargetAction::ReportNoTarget { resolver }) by {
                        if j < rest.len() {
                            assert(acts[j] == rest[j]);
                        }
                    }
                }
            } else {
                if let TargetAction::ReportNoTarget { resolver } = acts[i] {
                    assert forall|j: int| 0 <= j < acts.len() && j != i implies acts[j] != (TargetAction::ReportNoTarget { resolver }) by {
                        assert(acts[j] == rest[j]);
                        if let TargetAction::ReportNoTarget { resolver: c } = rest[j] {
                            assert(errors.contains(c));
                        }
                    }
                }
            }
        }
    }
}

/// A resolver that is itself marked as an animation target targets itself.
pub proof fn lemma_marked_resolver_targets_itself(h: Seq<HierarchyNode>, e: u64)
    requires
        node_of(h, e) matches Some(n) && n.is_target,
    ensures
        walk(h, e, h.len()) == WalkEnd::Found(e),
{
    lemma_node_of_entity(h, e);
}

/// The node found for an entity is that entity's node.
pub proof fn lemma_node_of_entity(h: Seq<HierarchyNode>, e: u64)
    ensures
        node_of(h, e) matches Some(n) ==> n.entity == e && h.len() > 0,
    decreases h.len(),
{
    if h.len() > 0 && h[0].entity != e {
        lemma_node_of_entity(h.skip(1), e);
    }
}

} // verus!
