use fractal_wgpu::Controls;
use fractal_wgpu::LogicalAction;

const ACTIONS: [LogicalAction; 8] = [
    LogicalAction::PanLeft,
    LogicalAction::PanRight,
    LogicalAction::PanUp,
    LogicalAction::PanDown,
    LogicalAction::ZoomIn,
    LogicalAction::ZoomOut,
    LogicalAction::IncreaseDetail,
    LogicalAction::DecreaseDetail,
];

#[test]
fn new_controls_are_idle() {
    let controls = Controls::new();
    for action in ACTIONS {
        assert!(!controls.is_held(action));
    }
    assert_eq!(controls.outdated_since(), None);
    assert!(!controls.picture_changes());
}

#[test]
fn press_and_release_toggle_each_flag() {
    for action in ACTIONS {
        let mut controls = Controls::new();
        controls.handle_key_event(action, true, 5);
        assert!(controls.is_held(action));
        for other in ACTIONS {
            if other != action {
                assert!(!controls.is_held(other));
            }
        }
        controls.handle_key_event(action, false, 6);
        assert!(!controls.is_held(action));
    }
}

#[test]
fn picture_changes_iff_any_flag_for_all_256_combinations() {
    for mask in 0u32..256 {
        let mut controls = Controls::new();
        for (bit, action) in ACTIONS.iter().enumerate() {
            controls.handle_key_event(*action, mask & (1 << bit) != 0, 1);
        }
        assert_eq!(controls.picture_changes(), mask != 0);
    }
}

#[test]
fn first_press_starts_the_activity_clock() {
    let mut controls = Controls::new();
    controls.handle_key_event(LogicalAction::ZoomIn, true, 1_000);
    assert_eq!(controls.outdated_since(), Some(1_000));
    // A second press while the clock already runs leaves its origin alone.
    controls.handle_key_event(LogicalAction::PanLeft, true, 2_000);
    assert_eq!(controls.outdated_since(), Some(1_000));
}

#[test]
fn release_without_activity_does_not_start_the_clock() {
    let mut controls = Controls::new();
    controls.handle_key_event(LogicalAction::PanDown, false, 1_000);
    assert_eq!(controls.outdated_since(), None);
    assert!(!controls.picture_changes());
}

#[test]
fn pan_right_for_one_second_then_release() {
    let mut controls = Controls::new();
    controls.handle_key_event(LogicalAction::PanRight, true, 0);
    let update = controls.advance(1_000_000_000).expect("activity run is open");
    assert_eq!(update.dt_nanos, 1_000_000_000);
    assert_eq!(update.pan_x, 1);
    assert_eq!(update.pan_y, 0);
    assert!(!update.zoom_in && !update.zoom_out);
    assert!(!update.increase_detail && !update.decrease_detail);
    assert_eq!(controls.outdated_since(), Some(1_000_000_000));

    controls.handle_key_event(LogicalAction::PanRight, false, 1_500_000_000);
    let update = controls.advance(2_000_000_000).expect("one final settling tick");
    assert_eq!(update.pan_x, 0);
    assert_eq!(update.pan_y, 0);
    assert_eq!(controls.outdated_since(), None);
}

#[test]
fn advance_measures_time_from_the_refreshed_origin() {
    let mut controls = Controls::new();
    controls.handle_key_event(LogicalAction::ZoomOut, true, 0);
    let first = controls.advance(2_000_000_000).unwrap();
    assert_eq!(first.dt_nanos, 2_000_000_000);
    assert!(first.zoom_out);
    // The origin moved forward to the last tick, so the next tick integrates
    // only the time elapsed since then.
    let second = controls.advance(3_000_000_000).unwrap();
    assert_eq!(second.dt_nanos, 1_000_000_000);
    assert!(second.zoom_out);
}

#[test]
fn opposed_pan_keys_cancel_out() {
    let mut controls = Controls::new();
    controls.handle_key_event(LogicalAction::PanLeft, true, 0);
    controls.handle_key_event(LogicalAction::PanRight, true, 10);
    controls.handle_key_event(LogicalAction::PanUp, true, 20);
    controls.handle_key_event(LogicalAction::PanDown, true, 30);
    let update = controls.advance(1_000).unwrap();
    assert_eq!(update.pan_x, 0);
    assert_eq!(update.pan_y, 0);
}

#[test]
fn pan_directions_have_the_documented_signs() {
    let mut controls = Controls::new();
    controls.handle_key_event(LogicalAction::PanLeft, true, 0);
    controls.handle_key_event(LogicalAction::PanDown, true, 0);
    let update = controls.advance(500).unwrap();
    assert_eq!(update.pan_x, -1);
    assert_eq!(update.pan_y, -1);
}

#[test]
fn detail_flags_are_carried_into_the_update() {
    let mut controls = Controls::new();
    controls.handle_key_event(LogicalAction::IncreaseDetail, true, 0);
    controls.handle_key_event(LogicalAction::DecreaseDetail, true, 0);
    let update = controls.advance(750).unwrap();
    assert!(update.increase_detail);
    assert!(update.decrease_detail);
    assert_eq!(update.dt_nanos, 750);
}

#[test]
fn advance_when_idle_integrates_nothing() {
    let mut controls = Controls::new();
    assert!(controls.advance(42).is_none());
    assert_eq!(controls.outdated_since(), None);
}

#[test]
fn outdated_after_a_tick_iff_an_action_is_held() {
    // Held action: the clock is refreshed to the tick's time.
    let mut active = Controls::new();
    active.handle_key_event(LogicalAction::ZoomIn, true, 100);
    active.advance(200);
    assert_eq!(active.outdated_since(), Some(200));
    // No held action: the clock is cleared, whatever ran before.
    let mut idle = Controls::new();
    idle.handle_key_event(LogicalAction::ZoomIn, true, 100);
    idle.handle_key_event(LogicalAction::ZoomIn, false, 150);
    idle.advance(200);
    assert_eq!(idle.outdated_since(), None);
}
