use bevy_tween::interpolation::{sample_lookup_curve_system, CurveAction, CurveEntry};

fn entry(entity: u64, curve_id: u128, curve_loaded: bool, has_cache: bool) -> CurveEntry {
    CurveEntry { entity, curve_id, curve_loaded, has_cache, progress_is_nan: false }
}

#[test]
fn lookup_curves_are_sampled_through_the_cache_when_there_is_one() {
    let mut nan = entry(4, 100, true, false);
    nan.progress_is_nan = true;
    let entries = vec![entry(1, 100, true, true), entry(2, 100, true, false), entry(3, 200, false, true), nan];
    let actions = sample_lookup_curve_system(&entries, &vec![9, 8]);
    assert_eq!(
        actions,
        vec![
            CurveAction::SampleCached { entity: 1 },
            CurveAction::Sample { entity: 2 },
            CurveAction::ReportInvalidHandle { curve_id: 200 },
            CurveAction::RemoveValue { entity: 9 },
            CurveAction::RemoveValue { entity: 8 },
        ]
    );
}

#[test]
fn an_invalid_handle_is_reported_for_every_changed_tween() {
    let entries = vec![entry(1, 200, false, false), entry(2, 200, false, false)];
    let actions = sample_lookup_curve_system(&entries, &vec![]);
    assert_eq!(
        actions,
        vec![CurveAction::ReportInvalidHandle { curve_id: 200 }, CurveAction::ReportInvalidHandle { curve_id: 200 }]
    );
}
