use pandemist_vehicle_elements::annoucements::{speaker_outputs, SpeakerTarget};
use pandemist_vehicle_elements::cabin_door::HandDoorLockingMode;
use pandemist_vehicle_elements::door_enums::{DoorState, DoorTarget};
use pandemist_vehicle_elements::electrical_supply::{ApiThirdRailCollector, Side};
use pandemist_vehicle_elements::host_vars::{VarValue, VarWrite};
use pandemist_vehicle_elements::light::Light;
use pandemist_vehicle_elements::mock_enums::{CouplingState, PlayerInitPos, VehicleInitState};
use pandemist_vehicle_elements::passenger_seat::{passengers_on_train, PassengerSeat};
use pandemist_vehicle_elements::simulation_settings::{deadmans_switch, realisitc_electric_supply};
use pandemist_vehicle_elements::steering::Steering;
use pandemist_vehicle_elements::variable::Variable;
use pandemist_vehicle_elements::visible_flag::Visiblility;

#[test]
fn coupling_codes() {
    assert_eq!(CouplingState::from_code(2), CouplingState::Coupled);
    assert_eq!(CouplingState::from_code(1), CouplingState::Ready);
    assert_eq!(CouplingState::from_code(0), CouplingState::Deactivated);
    assert_eq!(CouplingState::from_code(9), CouplingState::Deactivated);
    assert_eq!(CouplingState::Coupled.code(), 2);
    assert_eq!(CouplingState::Ready.code(), 1);
    assert_eq!(CouplingState::Deactivated.code(), 0);
}

#[test]
fn init_state_codes() {
    let code: i32 = VehicleInitState::Setuped.into();
    assert_eq!(code, 1);
    assert_eq!(i32::from(VehicleInitState::ReadyToDrive), 2);
    assert_eq!(i32::from(VehicleInitState::ColdAndDark), 0);
    assert_eq!(VehicleInitState::from_code(2), VehicleInitState::ReadyToDrive);
    assert_eq!(VehicleInitState::from_code(1), VehicleInitState::Setuped);
    assert_eq!(VehicleInitState::from_code(-3), VehicleInitState::ColdAndDark);
    assert!(VehicleInitState::Setuped.precedes(&VehicleInitState::ReadyToDrive));
    assert!(!VehicleInitState::ReadyToDrive.precedes(&VehicleInitState::Setuped));
}

#[test]
fn player_positions() {
    assert_eq!(PlayerInitPos::from_code(1), PlayerInitPos::CabFront);
    assert_eq!(PlayerInitPos::from_code(-1), PlayerInitPos::CabRear);
    assert_eq!(PlayerInitPos::from_code(0), PlayerInitPos::NotHere);
}

#[test]
fn door_defaults() {
    assert_eq!(DoorTarget::default(), DoorTarget::Zu);
    assert_eq!(DoorState::default(), DoorState::Other);
    assert!(DoorTarget::Zwangssschliessen < DoorTarget::Oeffnen);
    assert!(HandDoorLockingMode::Bolt != HandDoorLockingMode::Latch);
}

#[test]
fn placeholders() {
    let mut seat = PassengerSeat::new("A1");
    seat.set_valid(true);
    assert!(!seat.is_free());
    assert_eq!(passengers_on_train(), 0);
    assert!(!realisitc_electric_supply());
    assert!(deadmans_switch());
}

#[test]
fn named_handles() {
    assert_eq!(Steering::new("main").name(), "main");
    let v: Variable<i32> = Variable::new("counter");
    assert_eq!(v.name(), "counter");
    assert_eq!(Light::new(Some("lamp")).name().as_deref(), Some("lamp"));
    assert_eq!(Light::new(None).name().as_deref(), None);
    let c = ApiThirdRailCollector::new(3, Side::Right);
    assert_eq!(c.index(), 3);
    assert_eq!(c.collector_side(), Side::Right);
}

#[test]
fn visibility_writes() {
    let w = |v: bool| VarWrite { name: "flag".to_string(), value: VarValue::Bool(v) };
    let (mut flag, shown) = Visiblility::new_visible("flag");
    assert_eq!(shown, w(true));
    assert_eq!(flag.name(), "flag");
    assert_eq!(flag.make_invisible(), w(false));
    assert_eq!(flag.make_visible(), w(true));
    assert_eq!(flag.set_visbility(false), w(false));
    assert_eq!(flag.toggle_visibility(false), w(true));
    assert_eq!(flag.toggle_visibility(true), w(false));
    assert_eq!(Visiblility::new("other").name(), "other");
}

#[test]
fn speakers() {
    assert_eq!(speaker_outputs(SpeakerTarget::Int, true), (true, true));
    assert_eq!(speaker_outputs(SpeakerTarget::IntExt, true), (true, true));
    assert_eq!(speaker_outputs(SpeakerTarget::Ext, true), (false, false));
    assert_eq!(speaker_outputs(SpeakerTarget::Extl, true), (false, true));
    assert_eq!(speaker_outputs(SpeakerTarget::Extr, false), (false, false));
}
