use pandemist_vehicle_elements::staged_throttle_lever::{LeverSpeed, MovementMode, StagedThrottleLever};

fn lever() -> StagedThrottleLever {
    StagedThrottleLever::builder()
        .max_snappoint(10)
        .min_snappoint(-8)
        .add_stage_plus(7)
        .add_stage_plus(3)
        .add_stage_plus(5)
        .add_stage_minus(-2)
        .add_stage_minus(-5)
        .build()
}

#[test]
fn throttle_goes_to_the_next_power_stage() {
    let mut l = lever();
    assert_eq!(l.next_stage(), 3);
    assert_eq!(l.press_throttle(), LeverSpeed::NormalUp);
    assert_eq!(l.snappoint_target(), 3);
    assert_eq!(l.move_type(), MovementMode::Up);
    l.update_snappoint(3);
    assert_eq!(l.next_stage(), 5);
    l.update_snappoint(7);
    assert_eq!(l.next_stage(), 10);
}

#[test]
fn brake_goes_to_the_lowest_brake_stage_below() {
    let mut l = lever();
    assert_eq!(l.prev_stage(), -5);
    l.update_snappoint(-5);
    assert_eq!(l.prev_stage(), -8);
    assert_eq!(l.press_brake(), LeverSpeed::NormalDown);
    assert_eq!(l.move_type(), MovementMode::Down);
}

#[test]
fn emergency_stage_is_spared() {
    let mut l = StagedThrottleLever::builder().max_snappoint(4).min_snappoint(-4).last_stage_is_emergency_brake().build();
    assert_eq!(l.prev_stage(), -3);
    assert_eq!(l.press_max_brake(), LeverSpeed::VeryFastDown);
    assert_eq!(l.snappoint_target(), -4);
    assert_eq!(l.move_type(), MovementMode::Min);
}

#[test]
fn neutral_and_release() {
    let mut l = lever();
    l.update_snappoint(4);
    assert_eq!(l.press_neutral(), LeverSpeed::Fast(-1));
    assert_eq!(l.snappoint_target(), 0);
    assert!(!l.release(4));
    l.press_throttle();
    assert!(l.release(4));
    assert_eq!(l.snappoint(), 4);
    assert_eq!(l.snappoint_target(), 4);
    assert_eq!(l.move_type(), MovementMode::Min);
}

#[test]
fn constraints_limit_the_target() {
    let mut l = StagedThrottleLever::builder().max_snappoint(10).min_snappoint(-8).add_constraint(1, 2, -1).build();
    assert_eq!(l.constrained_limits(1), (-1, 2));
    assert_eq!(l.constrained_limits(0), (-8, 10));
    l.press_throttle();
    assert_eq!(l.snappoint_target(), 10);
    l.clamp_target(1);
    assert_eq!(l.snappoint_target(), 2);
    assert_eq!(l.max_snappoint(), 10);
    assert_eq!(l.min_snappoint(), -8);
}

#[test]
fn snappoint_changes_are_reported_once() {
    let mut l = lever();
    assert!(!l.update_snappoint(0));
    assert!(l.update_snappoint(1));
    assert!(!l.update_snappoint(1));
}

#[test]
fn snap_sound_prefers_the_alternative() {
    let mut l = StagedThrottleLever::builder()
        .max_snappoint(4)
        .add_alt_sound(2, "snap_2")
        .add_alt_sound(2, "snap_two")
        .build();
    assert!(!l.update_snappoint(0));
    assert_eq!(l.snap_sound(), None);
    assert!(l.update_snappoint(2));
    let s = l.snap_sound().unwrap();
    assert_eq!(s.name, "snap_two".to_string());
    assert_eq!(s.value, pandemist_vehicle_elements::host_vars::VarValue::Bool(true));
    assert!(!l.update_snappoint(2));
}

#[test]
fn emergency_stage_flag_is_reported() {
    assert!(!lever().last_stage_is_emergency_brake());
    let l = StagedThrottleLever::builder().min_snappoint(-3).last_stage_is_emergency_brake().build();
    assert!(l.last_stage_is_emergency_brake());
}
