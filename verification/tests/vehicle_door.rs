use pandemist_vehicle_elements::host_vars::{VarValue, VarWrite};
use pandemist_vehicle_elements::vehicle_door::VehicleDoor;

fn w(name: &str, v: bool) -> VarWrite {
    VarWrite { name: name.to_string(), value: VarValue::Bool(v) }
}

#[test]
fn update_open_writes_only_changes() {
    let mut door = VehicleDoor::new(1, true, true);
    assert_eq!(door.update_open(false), None);
    assert_eq!(door.update_open(true), Some(w("DoorOpen_1", true)));
    assert_eq!(door.update_open(true), None);
    assert_eq!(door.update_open(false), Some(w("DoorOpen_1", false)));
}

#[test]
fn update_released_writes_entry_and_exit() {
    let mut door = VehicleDoor::new(2, true, false);
    assert_eq!(door.update_released(true), vec![w("DoorEntryReleased_2", true), w("DoorExitReleased_2", true)]);
    assert!(door.update_released(true).is_empty());
    assert_eq!(door.update_released(false), vec![w("DoorEntryReleased_2", false), w("DoorExitReleased_2", false)]);
}

#[test]
fn availability_and_names() {
    let mut door = VehicleDoor::new(5, false, true);
    assert!(!door.entry_available());
    assert!(door.exit_available());
    assert_eq!(door.set_entry_available(true), w("DoorEntryAvailable_5", true));
    assert!(door.entry_available());
    assert_eq!(door.set_exit_available(false), w("DoorExitAvailable_5", false));
    assert!(!door.exit_available());
    assert_eq!(door.set_open(true), w("DoorOpen_5", true));
    assert_eq!(door.request_in_var(), "DoorReqIn_5");
    assert_eq!(door.request_out_var(), "DoorReqOut_5");
    assert_eq!(door.occupied_var(), "DoorOccupied_5");
}
