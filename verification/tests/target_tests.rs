use bevy_tween::target::{resolve_animation_target_system, walk_terminates, HierarchyNode, TargetAction};

fn node(entity: u64, parent: Option<u64>, is_target: bool) -> HierarchyNode {
    HierarchyNode { entity, parent, is_target }
}

fn hierarchy() -> Vec<HierarchyNode> {
    vec![
        node(1, None, true),
        node(2, Some(1), false),
        node(3, Some(2), false),
        node(4, None, false),
        node(5, Some(4), false),
        node(6, Some(1), true),
    ]
}

#[test]
fn resolvers_find_the_nearest_marked_parent() {
    let mut last_error: Vec<u64> = vec![];
    let actions = resolve_animation_target_system(&hierarchy(), &vec![3, 2, 6, 1], &mut last_error);
    assert_eq!(
        actions,
        vec![
            TargetAction::Resolve { resolver: 3, target: 1 },
            TargetAction::Resolve { resolver: 2, target: 1 },
            TargetAction::Resolve { resolver: 6, target: 6 },
            TargetAction::Resolve { resolver: 1, target: 1 },
        ]
    );
    assert!(last_error.is_empty());
}

#[test]
fn a_resolver_without_target_is_reported_once() {
    let mut last_error: Vec<u64> = vec![];
    let actions = resolve_animation_target_system(&hierarchy(), &vec![5, 5, 4], &mut last_error);
    assert_eq!(
        actions,
        vec![TargetAction::ReportNoTarget { resolver: 5 }, TargetAction::ReportNoTarget { resolver: 4 }]
    );
    // still failing at the next run: not reported again
    let actions = resolve_animation_target_system(&hierarchy(), &vec![5, 3], &mut last_error);
    assert_eq!(actions, vec![TargetAction::Resolve { resolver: 3, target: 1 }]);
    assert_eq!(last_error, vec![5]);
}

#[test]
fn walks_that_end_and_walks_that_do_not() {
    let h = hierarchy();
    assert!(walk_terminates(&h, 3));
    assert!(walk_terminates(&h, 5));
    // a parent the hierarchy lacks
    let mut broken = h.clone();
    broken.push(node(7, Some(99), false));
    assert!(!walk_terminates(&broken, 7));
    // a cycle of unmarked entities
    let cycle = vec![node(1, Some(2), false), node(2, Some(1), false)];
    assert!(!walk_terminates(&cycle, 1));
}
