use pandemist_vehicle_elements::hand_coupler::{HandCoupler, HandCouplerInputs};
use pandemist_vehicle_elements::host_vars::{VarValue, VarWrite};
use pandemist_vehicle_elements::key_event::{ActionKind, ActionSnapshot, KeyEvent, KeyEventCab};
use pandemist_vehicle_elements::mirror::{FourDirections, MirrorDirection, OutsideMirror};
use pandemist_vehicle_elements::mock_enums::{CouplingState, VehicleInitState};
use pandemist_vehicle_elements::railbrakes::Railbrakes;

fn w(name: &str, v: bool) -> VarWrite {
    VarWrite { name: name.to_string(), value: VarValue::Bool(v) }
}

fn idle() -> ActionSnapshot {
    ActionSnapshot { kind: ActionKind::Inactive, cockpit_index: None }
}

fn inputs(coupled: bool) -> HandCouplerInputs {
    HandCouplerInputs {
        uncoupler_pressed: false,
        coupling: if coupled { CouplingState::Coupled } else { CouplingState::Ready },
        coupled,
        reached_closed: false,
        cab_visible: false,
        bag_visible: false,
        remote_bag_state: false,
        bag_timer_expired: false,
    }
}

#[test]
fn coupler_new_shows_coupler_or_cover() {
    let (_, write) = HandCoupler::new(3, None, true);
    assert_eq!(write, w("Coupling_3_vis", true));
    let (c, write) = HandCoupler::new(3, None, false);
    assert_eq!(write, w("Coupling_3_casecap", true));
    let (cab, bag, vis) = c.flags();
    assert_eq!((cab.as_str(), bag.as_str(), vis.as_str()), ("Coupling_3_casecap", "Coupling_3_BagVis", "Coupling_3_vis"));
}

#[test]
fn uncoupler_deactivates_a_coupled_coupler() {
    let (mut c, _) = HandCoupler::new(1, None, true);
    let mut i = inputs(true);
    i.uncoupler_pressed = true;
    let a = c.step(&idle(), &idle(), i);
    assert_eq!(a.new_coupling_state, Some(CouplingState::Deactivated));
    i.coupling = CouplingState::Ready;
    let a = c.step(&idle(), &idle(), i);
    assert_eq!(a.new_coupling_state, None);
}

#[test]
fn bag_is_shown_once_after_its_timer() {
    let (mut c, _) = HandCoupler::new(2, None, true);
    let a = c.step(&idle(), &idle(), inputs(true));
    assert!(a.restart_bag_timer && a.run_bag_timer && !a.send_bag);
    assert_eq!(a.writes, vec![w("Coupling_2_vis", true)]);
    let mut i = inputs(true);
    i.bag_timer_expired = true;
    let a = c.step(&idle(), &idle(), i);
    assert!(a.send_bag && !a.restart_bag_timer);
    assert_eq!(a.writes, vec![w("Coupling_2_vis", true), w("Coupling_2_BagVis", true)]);
    i.bag_visible = true;
    let a = c.step(&idle(), &idle(), i);
    assert!(!a.send_bag && !a.run_bag_timer);
}

#[test]
fn uncoupled_hides_bag_and_closed_cover_hides_coupler() {
    let (mut c, _) = HandCoupler::new(4, None, false);
    let mut i = inputs(false);
    i.reached_closed = true;
    i.bag_visible = true;
    let a = c.step(&idle(), &idle(), i);
    assert!(a.cab_closed && !a.send_bag && !a.run_bag_timer);
    assert_eq!(a.writes, vec![w("Coupling_4_casecap", true), w("Coupling_4_vis", false), w("Coupling_4_BagVis", false)]);
    let flap = ActionSnapshot { kind: ActionKind::JustPressed, cockpit_index: None };
    let mut i = inputs(false);
    i.cab_visible = true;
    let a = c.step(&flap, &idle(), i);
    assert!(!a.cab_closed);
    assert_eq!(a.writes[0], w("Coupling_4_casecap", false));
    assert_eq!(a.writes[1], w("Coupling_4_vis", true));
}

fn mirror() -> OutsideMirror {
    OutsideMirror::builder(Some(KeyEventCab::ACab))
        .keyevent_arm("arm")
        .keyevent_mirror("glass")
        .snd_open("open")
        .snd_close("close")
        .snd_move("move")
        .snd_move_end("move_end")
        .build()
}

#[test]
fn mirror_arm_opens_with_voltage_only() {
    let mut m = mirror();
    m.arm_target = true;
    let t = m.tick(false, true, false);
    assert_eq!(t.arm_motion, None);
    assert_eq!(t.writes, vec![w("move", false)]);
    assert!(!m.arm_state());
    let t = m.tick(true, false, false);
    assert_eq!(t.arm_motion, Some(true));
    assert_eq!(t.writes, vec![w("open", true), w("move", false)]);
    let t = m.tick(true, true, false);
    assert_eq!(t.writes, vec![w("move", false)]);
    assert!(m.arm_state());
    m.arm_target = false;
    let t = m.tick(true, false, false);
    assert_eq!(t.arm_motion, Some(false));
    assert_eq!(t.writes, vec![w("close", true), w("move", false)]);
}

#[test]
fn mirror_glass_moves_in_one_direction() {
    let mut m = mirror();
    m.mirror_target = FourDirections { up: false, down: true, left: true, right: false };
    assert_eq!(m.direction(), Some(MirrorDirection::Down));
    let t = m.tick(true, false, true);
    assert_eq!(t.glass_motion, Some(MirrorDirection::Down));
    assert_eq!(t.writes, vec![w("move_end", true), w("move", false)]);
    m.mirror_target = FourDirections { up: false, down: false, left: true, right: false };
    let t = m.tick(true, false, false);
    assert_eq!(t.writes, vec![w("move", true)]);
    let t = m.tick(false, false, true);
    assert_eq!(t.glass_motion, None);
    assert_eq!(t.writes, vec![w("move", false)]);
}

#[test]
fn key_injection_setter() {
    let mut k = KeyEvent::new(Some("k"), None);
    k.set_injection(true);
    assert!(k.injection);
    assert!(k.is_just_pressed(&idle()));
    k.set_injection(false);
    assert!(k.is_just_released(&idle()));
}

#[test]
fn init_states_compare_in_order() {
    assert!(VehicleInitState::ColdAndDark < VehicleInitState::Setuped);
    assert!(VehicleInitState::Setuped < VehicleInitState::ReadyToDrive);
}

#[test]
fn friction_sound_replaces_release_sound() {
    let mut r = Railbrakes::builder().snd_railbrake_off("off").snd_railbrake_friction("friction").build();
    r.tick(true, true);
    let (_, writes) = r.tick(false, true);
    assert_eq!(writes, vec![w("friction", true)]);
}
