use pandemist_vehicle_elements::host_vars::{VarValue, VarWrite};
use pandemist_vehicle_elements::intercom::IntercomGt6n;
use pandemist_vehicle_elements::key_event::{ActionKind, ActionSnapshot};

fn w(name: &str, v: bool) -> VarWrite {
    VarWrite { name: name.to_string(), value: VarValue::Bool(v) }
}

#[test]
fn call_wait_and_answer() {
    let mut p = IntercomGt6n::new(2, "red", "green", "yellow", "Call", "talk");
    let t = p.tick(Some(2));
    assert!(t.waiting);
    assert_eq!(t.writes, vec![w("talk", true), w("red", false), w("green", false)]);
    p.confirm(Some(2));
    let t = p.tick(Some(2));
    assert!(!t.waiting);
    assert_eq!(t.writes, vec![w("red", false), w("green", true)]);
    let t = p.tick(Some(3));
    assert!(!t.waiting);
    assert_eq!(t.writes, vec![w("red", true), w("green", false)]);
    assert_eq!(p.yellow_light().name(), "yellow");
}

#[test]
fn call_key() {
    let mut p = IntercomGt6n::new(1, "r", "g", "y", "Call", "talk");
    let press = ActionSnapshot { kind: ActionKind::JustPressed, cockpit_index: None };
    assert!(!p.pressed(&press, false));
    assert!(p.pressed(&press, true));
    let idle = ActionSnapshot { kind: ActionKind::Inactive, cockpit_index: None };
    assert!(!p.pressed(&idle, true));
}
