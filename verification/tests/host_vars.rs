use pandemist_vehicle_elements::host_vars::{bool_write, decimal_string, indexed_name, VarValue};

#[test]
fn decimal_strings() {
    assert_eq!(decimal_string(0), "0");
    assert_eq!(decimal_string(7), "7");
    assert_eq!(decimal_string(10), "10");
    assert_eq!(decimal_string(4096), "4096");
    assert_eq!(decimal_string(usize::MAX), usize::MAX.to_string());
}

#[test]
fn indexed_names() {
    assert_eq!(indexed_name("DoorOpen_", 3), "DoorOpen_3");
    assert_eq!(indexed_name("", 12), "12");
}

#[test]
fn bool_writes() {
    let w = bool_write("x".to_string(), true);
    assert_eq!(w.name, "x");
    assert_eq!(w.value, VarValue::Bool(true));
}
