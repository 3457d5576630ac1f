use pandemist_vehicle_elements::door_buttons::{
    DuoSpecialInBtn, DuwagDreieckIn2PushBtn, LightedOutPushBtn, RedGreenBtn, RedGreenDuoBtn, RedGreenOutBtn,
    SimpleInBtn, SimpleOutBtn, SimpleOutPushBtn, SimpleWithStateInPushBtn,
};
use pandemist_vehicle_elements::host_vars::{VarValue, VarWrite};
use pandemist_vehicle_elements::key_event::{ActionKind, ActionSnapshot};

fn snap(kind: ActionKind) -> ActionSnapshot {
    ActionSnapshot { kind, cockpit_index: None }
}

fn cleared(name: &str) -> VarWrite {
    VarWrite { name: name.to_string(), value: VarValue::Bool(false) }
}

#[test]
fn in_button_takes_and_clears_passenger_requests() {
    let mut b = SimpleInBtn::new(None, "DoorBtn", vec![1, 4]);
    assert_eq!(b.request_vars(), vec!["DoorReqIn_1".to_string(), "DoorReqIn_4".to_string()]);
    let (v, writes) = b.tick(&snap(ActionKind::Inactive), &vec![false, true]);
    assert!(v);
    assert_eq!(writes, vec![cleared("DoorReqIn_1"), cleared("DoorReqIn_4")]);
    let (v, _) = b.tick(&snap(ActionKind::Inactive), &vec![false, false]);
    assert!(!v);
    let (v, _) = b.tick(&snap(ActionKind::Pressed), &vec![false, false]);
    assert!(v);
}

#[test]
fn out_button_uses_out_requests() {
    let mut b = SimpleOutBtn::new(None, "DoorBtn", vec![2]);
    assert_eq!(b.request_vars(), vec!["DoorReqOut_2".to_string()]);
    let (v, writes) = b.tick(&snap(ActionKind::Inactive), &vec![true]);
    assert!(v);
    assert_eq!(writes, vec![cleared("DoorReqOut_2")]);
}

#[test]
fn duo_button_requests() {
    let mut b = DuoSpecialInBtn::new(None, "Kombi");
    b.tick(&snap(ActionKind::Pressed), true, true);
    assert!(b.value_wheelchair(true));
    assert!(!b.value_buggy(true));
    b.tick(&snap(ActionKind::Pressed), true, false);
    assert!(b.value_buggy(true));
    assert!(!b.value_buggy(false));
    assert!(!b.value_buggy(true));
    b.reset_wheelchair();
    assert!(!b.value_wheelchair(true));
    b.tick(&snap(ActionKind::Inactive), true, true);
    assert!(!b.value_wheelchair(true));
}

fn lamp(name: &str, v: bool) -> VarWrite {
    VarWrite { name: name.to_string(), value: VarValue::Bool(v) }
}

#[test]
fn lighted_in_button_reports_press_and_requests() {
    let mut b = SimpleWithStateInPushBtn::new(None, "btn_anim", "DoorBtn", "btn_light", vec![5]);
    assert_eq!(b.btn_anim, "btn_anim".to_string());
    assert_eq!(b.request_light().name(), &Some("btn_light".to_string()));
    assert_eq!(b.request_vars(), vec!["DoorReqIn_5".to_string()]);
    let t = b.tick(&snap(ActionKind::Pressed), &vec![false]);
    assert!(t.value && t.pressed);
    assert_eq!(t.writes, vec![cleared("DoorReqIn_5")]);
    let t = b.tick(&snap(ActionKind::Inactive), &vec![true]);
    assert!(t.value && !t.pressed);
}

#[test]
fn two_button_panel() {
    let mut b = DuwagDreieckIn2PushBtn::new(None, "a1", "a2", "E1", "E2", "L", vec![]);
    let (t, p2) = b.tick(&snap(ActionKind::Inactive), &snap(ActionKind::JustPressed), &vec![]);
    assert!(t.value && !t.pressed && p2);
    assert!(t.writes.is_empty());
    let (t, p2) = b.tick(&snap(ActionKind::Inactive), &snap(ActionKind::JustReleased), &vec![]);
    assert!(!t.value && !p2);
    assert_eq!(b.anim_names(), (&"a1".to_string(), &"a2".to_string()));
}

#[test]
fn out_push_buttons() {
    let mut b = SimpleOutPushBtn::new(None, "anim", "E", vec![3]);
    assert!(b.tick(&snap(ActionKind::Pressed)));
    assert!(!b.tick(&snap(ActionKind::Inactive)));
    assert_eq!(b.anim_name(), &"anim".to_string());
    let mut l = LightedOutPushBtn::new(None, "anim", "E", "light", vec![3]);
    let t = l.tick(&snap(ActionKind::Inactive), &vec![true]);
    assert!(t.value && !t.pressed);
    assert_eq!(t.writes, vec![cleared("DoorReqOut_3")]);
}

#[test]
fn red_green_out_button() {
    let mut b = RedGreenOutBtn::new(None, "E", "green", "red", vec![1]);
    let t = b.tick(&snap(ActionKind::Pressed), &vec![false], true, false, false);
    assert!(t.value && t.pressed);
    assert_eq!(t.writes, vec![lamp("green", true), lamp("red", false), cleared("DoorReqOut_1")]);
    let t = b.tick(&snap(ActionKind::Inactive), &vec![false], false, false, true);
    assert!(!t.value);
    assert_eq!(t.writes, vec![lamp("green", false), lamp("red", true), cleared("DoorReqOut_1")]);
}

#[test]
fn red_green_button_holds_while_pressed() {
    let mut b = RedGreenBtn::new(None, "E", "green", "red");
    let (p, writes) = b.tick(&snap(ActionKind::JustPressed), false, true, false);
    assert!(p);
    assert_eq!(writes, vec![lamp("green", false), lamp("red", true)]);
    assert!(b.value(true));
    assert!(!b.value(false));
    let (p, _) = b.tick(&snap(ActionKind::Pressed), false, false, true);
    assert!(p);
    assert!(b.value(true));
    let (p, _) = b.tick(&snap(ActionKind::JustReleased), false, false, true);
    assert!(!p);
    assert!(!b.value(true));
}

#[test]
fn red_green_duo_button() {
    let mut b = RedGreenDuoBtn::new(None, "Buggy", "Wheel", "green", "red");
    let (p, _) = b.tick(&snap(ActionKind::Pressed), &snap(ActionKind::Pressed), true, false, false);
    assert!(p);
    assert!(b.value_buggy());
    assert!(!b.value_wheelchair());
    let (p, _) = b.tick(&snap(ActionKind::JustReleased), &snap(ActionKind::Pressed), true, false, false);
    assert!(p);
    assert!(!b.value_buggy());
    assert!(b.value_wheelchair());
    let (p, _) = b.tick(&snap(ActionKind::Inactive), &snap(ActionKind::Inactive), true, false, false);
    assert!(!p);
    assert!(!b.value_wheelchair());
}
