use pandemist_vehicle_elements::aeg_electric_door::{
    released, AegDoorControl, AegDoorInputs, AegDoorState, CloseTimerOp, CloseTimerPhase, OpenTime,
};
use pandemist_vehicle_elements::door_enums::DoorTarget;

fn inp(target: DoorTarget, timer: CloseTimerPhase) -> AegDoorInputs {
    AegDoorInputs {
        power: true,
        door_target: target,
        door_1_btn: false,
        forced_open: false,
        haltewunsch: false,
        lichtschranke_frei: true,
        timer,
    }
}

/// A door driven open and settled fully open.
fn open_door() -> AegDoorControl {
    let mut d = AegDoorControl::new();
    let s = d.step(&inp(DoorTarget::Oeffnen, CloseTimerPhase::Idle));
    assert!(s.target_changed);
    assert_eq!(s.ops, vec![CloseTimerOp::Reset]);
    assert_eq!(d.settle(true, false), AegDoorState::Open);
    d
}

#[test]
fn open_command_opens() {
    let mut d = AegDoorControl::new();
    assert_eq!(d.state(), AegDoorState::Closed);
    d.step(&inp(DoorTarget::Oeffnen, CloseTimerPhase::Idle));
    assert!(d.target());
    assert_eq!(d.settle(false, false), AegDoorState::Opening);
    // forced open overrides a closing command
    let mut d = AegDoorControl::new();
    d.step(&AegDoorInputs { forced_open: true, ..inp(DoorTarget::Zu, CloseTimerPhase::Idle) });
    assert!(d.target());
    assert!(!d.manual_hold_open());
}

#[test]
fn without_power_only_timer_reset() {
    let mut d = open_door();
    let s = d.step(&AegDoorInputs { power: false, ..inp(DoorTarget::Zu, CloseTimerPhase::Finished) });
    assert_eq!(s.ops, vec![CloseTimerOp::Reset]);
    assert!(!s.target_changed);
    assert!(d.target());
}

#[test]
fn released_door_starts_regular_time_and_closes_when_it_runs_out() {
    let mut d = open_door();
    let s = d.step(&inp(DoorTarget::Freigabe, CloseTimerPhase::Idle));
    assert_eq!(s.ops, vec![CloseTimerOp::Start(OpenTime::Regular)]);
    assert!(d.target());
    let s = d.step(&inp(DoorTarget::Freigabe, CloseTimerPhase::Running));
    assert!(s.ops.is_empty());
    let s = d.step(&inp(DoorTarget::Freigabe, CloseTimerPhase::Finished));
    assert_eq!(s.ops, vec![CloseTimerOp::Reset]);
    assert!(s.target_changed);
    assert!(!d.target());
    assert_eq!(d.settle(false, false), AegDoorState::Closing);
}

#[test]
fn occupied_doorway_restarts_timer() {
    let mut d = open_door();
    let s = d.step(&AegDoorInputs { lichtschranke_frei: false, ..inp(DoorTarget::Freigabe, CloseTimerPhase::Finished) });
    assert_eq!(s.ops, vec![CloseTimerOp::Start(OpenTime::Regular)]);
    assert!(d.target());
}

#[test]
fn closing_door_reverses_on_stop_request() {
    let mut d = open_door();
    d.step(&inp(DoorTarget::Freigabe, CloseTimerPhase::Finished));
    assert_eq!(d.settle(false, false), AegDoorState::Closing);
    let s = d.step(&AegDoorInputs { haltewunsch: true, ..inp(DoorTarget::Freigabe, CloseTimerPhase::Idle) });
    assert!(d.target());
    assert!(s.target_changed);
    assert_eq!(s.ops, vec![CloseTimerOp::Reset, CloseTimerOp::Reset]);
}

#[test]
fn withdrawn_release_uses_min_time() {
    let mut d = open_door();
    let s = d.step(&inp(DoorTarget::Zu, CloseTimerPhase::Idle));
    assert_eq!(s.ops, vec![CloseTimerOp::Start(OpenTime::Min)]);
    let s = d.step(&inp(DoorTarget::Zu, CloseTimerPhase::Running));
    assert_eq!(s.ops, vec![CloseTimerOp::ClampToMin]);
    assert!(d.target());
    let s = d.step(&inp(DoorTarget::Zu, CloseTimerPhase::Finished));
    assert_eq!(s.ops, vec![CloseTimerOp::ClampToMin]);
    assert!(!d.target());
}

#[test]
fn door_1_button_toggles_and_holds_open() {
    let mut d = AegDoorControl::new();
    d.step(&AegDoorInputs { door_1_btn: true, ..inp(DoorTarget::Zu, CloseTimerPhase::Idle) });
    assert!(d.target());
    assert!(d.manual_hold_open());
    assert_eq!(d.settle(true, false), AegDoorState::Open);
    // held open: the withdrawn release does not close it
    let s = d.step(&inp(DoorTarget::Zu, CloseTimerPhase::Finished));
    assert_eq!(s.ops, vec![CloseTimerOp::Reset]);
    assert!(d.target());
    // pressed again on the open door: driven closed
    d.step(&AegDoorInputs { door_1_btn: true, ..inp(DoorTarget::Freigabe, CloseTimerPhase::Idle) });
    assert!(!d.target());
    assert!(!d.manual_hold_open());
}

#[test]
fn arrival_drops_target() {
    let mut d = open_door();
    d.arrive(false, true, false);
    assert!(d.target());
    d.arrive(true, true, false);
    assert!(!d.target());
    assert_eq!(d.settle(false, true), AegDoorState::Closed);
}

#[test]
fn warning_not_for_door_closed_when_asked() {
    let mut d = AegDoorControl::new();
    assert!(!d.warn_active(true, true));
    assert!(!d.warn_active(false, true));
    let mut d = open_door();
    assert!(d.warn_active(true, true));
    assert!(!d.warn_active(true, false));
}

#[test]
fn release_from_release_upwards() {
    assert!(!released(DoorTarget::Zwangssschliessen));
    assert!(!released(DoorTarget::Zu));
    assert!(released(DoorTarget::Freigabe));
    assert!(released(DoorTarget::Oeffnen));
}
