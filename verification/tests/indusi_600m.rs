use pandemist_vehicle_elements::indusi_600m::{
    Indusi600mMessage, Indusi600mVehicleUnit, Indusi600mVehicleUnitSide, MsgIndusi600mDeviceAcitve,
    MsgIndusi600mForcedBrake, MsgIndusi600mIndusiAcitve, MsgIndusi600mOverride, MsgIndusi600mReset,
};
use pandemist_vehicle_elements::key_event::KeyEventCab;

#[test]
fn side_without_sensors_is_none() {
    assert!(Indusi600mVehicleUnitSide::new(vec![], KeyEventCab::ACab).is_none());
    assert!(Indusi600mVehicleUnitSide::new(vec![7], KeyEventCab::BCab).is_some());
}

#[test]
fn activating_cab_a_reports_device_and_protection() {
    let mut unit = Indusi600mVehicleUnit::new(vec![1], vec![2]);
    let msgs = unit.tick(true, false, false, true);
    assert_eq!(
        msgs,
        vec![
            Indusi600mMessage::DeviceActive(MsgIndusi600mDeviceAcitve { side: KeyEventCab::ACab, value: true }),
            Indusi600mMessage::IndusiActive(MsgIndusi600mIndusiAcitve { side: KeyEventCab::ACab, value: true }),
        ]
    );
    // Same inputs again: nothing changes, nothing is sent.
    assert!(unit.tick(true, false, false, true).is_empty());
    assert!(!unit.is_triggered());
}

#[test]
fn both_cabs_active_force_a_brake_once() {
    let mut unit = Indusi600mVehicleUnit::new(vec![1], vec![2]);
    let msgs = unit.tick(true, true, false, true);
    assert_eq!(msgs[0], Indusi600mMessage::ForcedBrake(MsgIndusi600mForcedBrake { side: KeyEventCab::ACab }));
    assert_eq!(msgs[1], Indusi600mMessage::ForcedBrake(MsgIndusi600mForcedBrake { side: KeyEventCab::BCab }));
    assert_eq!(
        msgs[2..].to_vec(),
        vec![
            Indusi600mMessage::DeviceActive(MsgIndusi600mDeviceAcitve { side: KeyEventCab::ACab, value: true }),
            Indusi600mMessage::DeviceActive(MsgIndusi600mDeviceAcitve { side: KeyEventCab::BCab, value: true }),
        ]
    );
    assert!(unit.is_triggered());
    let again = unit.tick(true, true, false, true);
    assert!(again.is_empty());
    assert!(unit.is_triggered());
}

#[test]
fn bypass_hides_and_reset_clears_the_brake() {
    let mut unit = Indusi600mVehicleUnit::new(vec![1], vec![]);
    unit.tick(true, true, false, true);
    assert!(unit.is_triggered());
    unit.tick(false, false, true, true);
    assert!(!unit.is_triggered());
    unit.tick(false, false, false, true);
    assert!(unit.is_triggered());
    unit.on_message(&Indusi600mMessage::Reset(MsgIndusi600mReset { side: KeyEventCab::ACab }));
    assert!(!unit.is_triggered());
}

#[test]
fn override_requests_do_not_change_the_brake() {
    let mut unit = Indusi600mVehicleUnit::new(vec![1], vec![2]);
    unit.on_message(&Indusi600mMessage::Override(MsgIndusi600mOverride { side: KeyEventCab::ACab, value: true }));
    unit.on_message(&Indusi600mMessage::Override(MsgIndusi600mOverride { side: KeyEventCab::ACab, value: false }));
    unit.on_message(&Indusi600mMessage::Override(MsgIndusi600mOverride { side: KeyEventCab::ACab, value: false }));
    assert!(!unit.is_triggered());
    assert!(unit.tick(false, false, false, false).is_empty());
}

#[test]
fn override_count_follows_requests() {
    let mut unit = Indusi600mVehicleUnit::new(vec![1], vec![2]);
    assert_eq!(unit.override_count(), 0);
    unit.on_message(&Indusi600mMessage::Override(MsgIndusi600mOverride { side: KeyEventCab::ACab, value: true }));
    unit.on_message(&Indusi600mMessage::Override(MsgIndusi600mOverride { side: KeyEventCab::BCab, value: true }));
    assert_eq!(unit.override_count(), 2);
    unit.on_message(&Indusi600mMessage::Override(MsgIndusi600mOverride { side: KeyEventCab::ACab, value: false }));
    assert_eq!(unit.override_count(), 1);
    unit.tick(false, false, false, false);
    assert_eq!(unit.override_count(), 0);
    unit.on_message(&Indusi600mMessage::Override(MsgIndusi600mOverride { side: KeyEventCab::ACab, value: false }));
    assert_eq!(unit.override_count(), 0);
}
