use bevy_tween::apply::{
    apply_asset_tween_system, apply_component_tween_system, apply_handle_component_tween_system,
    apply_resource_tween_system, ApplyAction, AssetTweenEntry, ComponentTweenEntry, HandleTarget,
    HandleTweenEntry, TargetAsset, TargetComponent, TargetResource,
};

#[test]
fn component_tweens_set_their_targets() {
    let entries = vec![
        ComponentTweenEntry { tween: 1, target: TargetComponent::entity(10), query_error: None, with_component: vec![] },
        ComponentTweenEntry { tween: 2, target: TargetComponent::NoTarget, query_error: None, with_component: vec![] },
        ComponentTweenEntry {
            tween: 3,
            target: TargetComponent::entities(vec![20, 21, 22]),
            query_error: None,
            with_component: vec![22, 20],
        },
    ];
    let mut last: Vec<(u64, u64)> = vec![];
    let actions = apply_component_tween_system(&entries, &mut last);
    assert_eq!(
        actions,
        vec![
            ApplyAction::SetComponent { tween: 1, entity: 10 },
            ApplyAction::SetComponent { tween: 3, entity: 20 },
            ApplyAction::SetComponent { tween: 3, entity: 22 },
        ]
    );
    assert!(last.is_empty());
}

#[test]
fn component_query_errors_are_reported_when_they_change() {
    let failing = |err: u64| ComponentTweenEntry { tween: 1, target: TargetComponent::entity(10), query_error: Some(err), with_component: vec![] };
    let mut last: Vec<(u64, u64)> = vec![];
    let actions = apply_component_tween_system(&vec![failing(7), failing(7)], &mut last);
    assert_eq!(actions, vec![ApplyAction::ReportQueryError { tween: 1, error: 7 }]);
    assert_eq!(last, vec![(1, 7), (1, 7)]);
    // the same error at the next run: quiet; another error: reported
    let actions = apply_component_tween_system(&vec![failing(7)], &mut last);
    assert!(actions.is_empty());
    let actions = apply_component_tween_system(&vec![failing(8)], &mut last);
    assert_eq!(actions, vec![ApplyAction::ReportQueryError { tween: 1, error: 8 }]);
}

#[test]
fn resource_missing_is_reported_once() {
    let mut last = false;
    assert_eq!(apply_resource_tween_system(false, &vec![1, 2], &mut last), vec![ApplyAction::ReportMissingResource]);
    assert!(last);
    assert!(apply_resource_tween_system(false, &vec![1, 2], &mut last).is_empty());
    assert_eq!(
        apply_resource_tween_system(true, &vec![1, 2], &mut last),
        vec![ApplyAction::SetResource { tween: 1 }, ApplyAction::SetResource { tween: 2 }]
    );
    assert!(!last);
}

#[test]
fn asset_tweens_stop_at_the_first_missing_asset() {
    let entries = vec![
        AssetTweenEntry { tween: 1, target: TargetAsset::assets(vec![100, 999, 101]) },
        AssetTweenEntry { tween: 2, target: TargetAsset::asset(101) },
        AssetTweenEntry { tween: 3, target: TargetAsset::asset(999) },
    ];
    let loaded: Vec<u128> = vec![100, 101];
    let mut missing_collection = false;
    let mut last: Vec<u128> = vec![];
    let actions = apply_asset_tween_system(true, &entries, &loaded, &mut missing_collection, &mut last);
    assert_eq!(
        actions,
        vec![
            ApplyAction::SetAsset { tween: 1, asset: 100 },
            ApplyAction::ReportMissingAsset { asset: 999 },
            ApplyAction::SetAsset { tween: 2, asset: 101 },
        ]
    );
    assert_eq!(last, vec![999, 999]);
    // missing again at the next run: not reported
    let actions = apply_asset_tween_system(true, &entries[2..].to_vec(), &loaded, &mut missing_collection, &mut last);
    assert!(actions.is_empty());
}

#[test]
fn missing_asset_collection_keeps_the_missing_assets() {
    let mut missing_collection = false;
    let mut last: Vec<u128> = vec![5];
    let entries = vec![AssetTweenEntry { tween: 1, target: TargetAsset::asset(100) }];
    let actions = apply_asset_tween_system(false, &entries, &vec![], &mut missing_collection, &mut last);
    assert_eq!(actions, vec![ApplyAction::ReportMissingResource]);
    assert!(missing_collection);
    assert_eq!(last, vec![5]);
}

#[test]
fn handle_tweens() {
    let entries = vec![
        HandleTweenEntry { tween: 1, target: HandleTarget::Entity(Ok(100)) },
        HandleTweenEntry { tween: 2, target: HandleTarget::Entity(Err(4)) },
        HandleTweenEntry { tween: 3, target: HandleTarget::Entities(vec![101, 102]) },
        HandleTweenEntry { tween: 4, target: HandleTarget::NoTarget },
    ];
    let loaded: Vec<u128> = vec![100, 101];
    let mut missing_collection = true;
    let mut last_assets: Vec<u128> = vec![];
    let mut last_errors: Vec<(u64, u64)> = vec![];
    let actions = apply_handle_component_tween_system(
        true,
        &entries,
        &loaded,
        &mut missing_collection,
        &mut last_assets,
        &mut last_errors,
    );
    assert_eq!(
        actions,
        vec![
            ApplyAction::SetAsset { tween: 1, asset: 100 },
            ApplyAction::ReportQueryError { tween: 2, error: 4 },
            ApplyAction::SetAsset { tween: 3, asset: 101 },
            ApplyAction::ReportMissingAsset { asset: 102 },
        ]
    );
    assert!(!missing_collection);
    assert_eq!(last_assets, vec![102]);
    assert_eq!(last_errors, vec![(2, 4)]);
}

#[test]
fn target_constructors() {
    assert!(matches!(TargetComponent::default(), TargetComponent::NoTarget));
    assert!(matches!(TargetComponent::from(5u64), TargetComponent::Entity(5)));
    assert_eq!(TargetResource::new(), TargetResource::default());
}
