use bevy_tween::apply::{TargetAsset, TargetComponent};
use bevy_tween::world_set::{
    asset_writes, component_writes, dynamic_setter_system, handle_writes, resource_write, DynamicSetterAction,
    DynamicSetterEntry, DynamicSetterKind,
};

#[test]
fn component_writes_stop_at_the_first_entity_without_the_component() {
    let with_component = vec![1, 2, 4];
    assert_eq!(component_writes(&TargetComponent::entity(2), true, &with_component), vec![2]);
    assert_eq!(component_writes(&TargetComponent::entity(3), true, &with_component), Vec::<u64>::new());
    assert_eq!(
        component_writes(&TargetComponent::entities(vec![1, 2, 3, 4]), true, &with_component),
        vec![1, 2]
    );
    assert_eq!(component_writes(&TargetComponent::NoTarget, true, &with_component), Vec::<u64>::new());
    // no value: nothing written
    assert_eq!(component_writes(&TargetComponent::entity(2), false, &with_component), Vec::<u64>::new());
}

#[test]
fn asset_writes_need_the_collection_and_stop_at_the_first_missing_asset() {
    let loaded: Vec<u128> = vec![10, 11];
    assert_eq!(asset_writes(&TargetAsset::asset(11), true, true, &loaded), vec![11]);
    assert_eq!(asset_writes(&TargetAsset::assets(vec![10, 12, 11]), true, true, &loaded), vec![10]);
    assert_eq!(asset_writes(&TargetAsset::assets(vec![10, 11]), true, false, &loaded), Vec::<u128>::new());
    assert_eq!(asset_writes(&TargetAsset::asset(10), false, true, &loaded), Vec::<u128>::new());
}

#[test]
fn handle_writes_follow_the_handles() {
    let handles: Vec<(u64, u128)> = vec![(1, 10), (2, 11), (3, 12)];
    let loaded: Vec<u128> = vec![10, 11];
    assert_eq!(handle_writes(&TargetComponent::entity(2), true, &handles, true, &loaded), vec![11]);
    assert_eq!(
        handle_writes(&TargetComponent::entities(vec![1, 2, 3, 1]), true, &handles, true, &loaded),
        vec![10, 11]
    );
    // an entity without a handle stops the writes
    assert_eq!(
        handle_writes(&TargetComponent::entities(vec![1, 9, 2]), true, &handles, true, &loaded),
        vec![10]
    );
    assert_eq!(
        handle_writes(&TargetComponent::entity(1), true, &handles, false, &loaded),
        Vec::<u128>::new()
    );
}

#[test]
fn resource_write_needs_everything() {
    assert!(resource_write(true, true, true));
    assert!(!resource_write(false, true, true));
    assert!(!resource_write(true, false, true));
    assert!(!resource_write(true, true, false));
}

#[test]
fn dynamic_setters_run_or_apply_and_stop_where_a_setter_is_gone() {
    let reflect = |target: TargetComponent, ok: bool| DynamicSetterKind::Reflect { target, lookups_succeed: ok };
    let entries = vec![
        DynamicSetterEntry { tween: 1, kind: Some(DynamicSetterKind::Custom) },
        DynamicSetterEntry { tween: 2, kind: Some(reflect(TargetComponent::entity(20), true)) },
        DynamicSetterEntry { tween: 3, kind: Some(reflect(TargetComponent::entity(30), false)) },
        DynamicSetterEntry { tween: 4, kind: Some(reflect(TargetComponent::NoTarget, true)) },
        DynamicSetterEntry { tween: 5, kind: None },
        DynamicSetterEntry { tween: 6, kind: Some(DynamicSetterKind::Custom) },
    ];
    assert_eq!(
        dynamic_setter_system(&entries),
        vec![
            DynamicSetterAction::RunCustom { tween: 1 },
            DynamicSetterAction::ApplyReflected { tween: 2, entity: 20 },
        ]
    );
}
