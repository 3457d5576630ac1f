use pandemist_vehicle_elements::current_collector::SwitchingTarget;
use pandemist_vehicle_elements::host_vars::{VarValue, VarWrite};
use pandemist_vehicle_elements::key_event::{ActionKind, ActionSnapshot, KeyEventCab};
use pandemist_vehicle_elements::main_switch::{BatteryMainSwitch, MainSwitch};
use pandemist_vehicle_elements::railbrakes::Railbrakes;
use pandemist_vehicle_elements::video_system::VideoSystemGt6n;
use pandemist_vehicle_elements::wagenautomat::{SimpleState, WagenautomatElectric, WagenautomatManual};

fn w(name: &str, v: bool) -> VarWrite {
    VarWrite { name: name.to_string(), value: VarValue::Bool(v) }
}

fn main_switch() -> MainSwitch {
    MainSwitch::builder()
        .snd_turn_on_start("start")
        .snd_turn_on("on")
        .snd_turn_off("off")
        .snd_trigger("trip")
        .build()
}

#[test]
fn main_switch_lever_closes_and_opens() {
    let mut s = main_switch();
    assert!(!s.state);
    let (timer, writes) = s.tick(true, false, false, false);
    assert!(!timer);
    assert!(s.state);
    assert_eq!(writes, vec![w("on", true)]);
    let (_, writes) = s.tick(false, true, false, false);
    assert!(!s.state);
    assert_eq!(writes, vec![w("off", true)]);
}

#[test]
fn main_switch_remote_command_waits_for_delay() {
    let mut s = main_switch();
    s.target = SwitchingTarget::TurnOn;
    let (timer, writes) = s.tick(false, false, false, false);
    assert!(timer);
    assert!(!s.state);
    assert_eq!(writes, vec![w("start", true)]);
    let (timer, writes) = s.tick(false, false, false, false);
    assert!(timer);
    assert!(writes.is_empty());
    let (timer, writes) = s.tick(false, false, false, true);
    assert!(timer);
    assert!(s.state);
    assert_eq!(writes, vec![w("on", true)]);
    let (timer, writes) = s.tick(false, false, false, true);
    assert!(!timer);
    assert!(writes.is_empty());
}

#[test]
fn main_switch_blocked_command_and_trip() {
    let mut s = main_switch();
    s.switching_allowed = false;
    s.target = SwitchingTarget::TurnOn;
    let (_, _) = s.tick(false, false, false, true);
    assert!(!s.state);
    s.switching_allowed = true;
    let (_, writes) = s.tick(false, false, false, true);
    assert!(s.state);
    assert_eq!(writes, vec![w("on", true)]);
    assert_eq!(s.turn_off(), vec![w("trip", true)]);
    assert!(!s.state);
    assert_eq!(s.target, SwitchingTarget::Neutral);
    assert!(s.turn_off().is_empty());
}

#[test]
fn main_switch_init_closed() {
    let s = MainSwitch::builder().init(true).build();
    assert!(s.state);
    let s = MainSwitch::builder().init(false).build();
    assert!(!s.state);
}

#[test]
fn battery_switch_follows_command_and_voltage() {
    let mut b = BatteryMainSwitch::new().snd_battery_on("bat_on").snd_battery_off("bat_off").init(false);
    let (timer, writes) = b.tick(SwitchingTarget::TurnOn, false, false);
    assert!(timer);
    assert!(writes.is_empty());
    assert!(!b.battery_mainswitch);
    let (_, writes) = b.tick(SwitchingTarget::TurnOn, true, false);
    assert!(b.battery_mainswitch);
    assert!(!b.battery_mainswitch_last);
    assert_eq!(writes, vec![w("bat_on", true)]);
    let (timer, writes) = b.tick(SwitchingTarget::Neutral, false, true);
    assert!(!timer);
    assert!(!b.battery_mainswitch);
    assert_eq!(writes, vec![w("bat_off", true)]);
    let (_, writes) = b.tick(SwitchingTarget::TurnOn, true, true);
    assert!(!b.battery_mainswitch);
    assert_eq!(writes, vec![w("bat_on", true), w("bat_off", true)]);
}

#[test]
fn electric_breaker_cycle() {
    let mut b = WagenautomatElectric::new(3, SimpleState::Off);
    let (timer, writes) = b.tick(SwitchingTarget::TurnOn, false, false, false);
    assert!(timer);
    assert_eq!(writes, vec![w("snd_wagenautomat_3_start", true)]);
    let (_, writes) = b.tick(SwitchingTarget::TurnOn, false, false, true);
    assert_eq!(writes, vec![w("snd_wagenautomat_3_on", true)]);
    assert_eq!(b.state(), SimpleState::On);
    let (timer, writes) = b.tick(SwitchingTarget::Neutral, false, false, true);
    assert!(!timer);
    assert!(writes.is_empty());
    assert_eq!(b.auslegen(), vec![w("snd_wagenautomat_3_off", true)]);
    assert!(b.auslegen().is_empty());
    assert_eq!(b.state(), SimpleState::Off);
}

#[test]
fn electric_breaker_blocked() {
    let mut b = WagenautomatElectric::new(12, SimpleState::Off);
    let (_, writes) = b.tick(SwitchingTarget::TurnOn, true, false, true);
    assert!(writes.is_empty());
    assert_eq!(b.state(), SimpleState::Off);
    let mut b = WagenautomatElectric::new(12, SimpleState::On);
    let (_, writes) = b.tick(SwitchingTarget::TurnOff, true, false, true);
    assert_eq!(writes, vec![w("snd_wagenautomat_12_off", true)]);
    assert_eq!(b.state(), SimpleState::Off);
}

#[test]
fn manual_breaker_cycle() {
    let mut b = WagenautomatManual::new(1, KeyEventCab::ACab, SimpleState::Off);
    assert_eq!(b.id(), 1);
    let in_a = ActionSnapshot { kind: ActionKind::Pressed, cockpit_index: Some(0) };
    let in_b = ActionSnapshot { kind: ActionKind::Pressed, cockpit_index: Some(1) };
    assert!(b.grabbed(&in_a));
    assert!(!b.grabbed(&in_b));
    assert_eq!(b.tick(true, false, SwitchingTarget::Neutral), vec![w("snd_wagenautomat_1_on", true)]);
    assert_eq!(b.state(), SimpleState::On);
    assert_eq!(b.tick(false, true, SwitchingTarget::Neutral), vec![w("snd_wagenautomat_1_off", true)]);
    assert_eq!(b.state(), SimpleState::On);
    assert_eq!(b.auslegen(), vec![w("snd_wagenautomat_1_off", true)]);
    assert_eq!(b.tick(false, false, SwitchingTarget::TurnOn), vec![w("snd_wagenautomat_1_on", true)]);
    assert_eq!(b.state(), SimpleState::On);
}

#[test]
fn railbrakes_sound_on_changes() {
    let mut r = Railbrakes::builder().snd_railbrake_on("mg_on").snd_railbrake_off("mg_off").build();
    let (s, writes) = r.tick(true, false);
    assert!(!s);
    assert!(writes.is_empty());
    let (s, writes) = r.tick(true, true);
    assert!(s);
    assert!(r.state);
    assert_eq!(writes, vec![w("mg_on", true)]);
    let (_, writes) = r.tick(true, true);
    assert!(writes.is_empty());
    let (s, writes) = r.tick(false, true);
    assert!(!s);
    assert_eq!(writes, vec![w("mg_off", true)]);
}

#[test]
fn video_system_lamps() {
    let mut v = VideoSystemGt6n::new("led_green", "led_red");
    let (timer, writes) = v.tick(true, true, true);
    assert!(timer);
    assert_eq!(writes, vec![w("led_red", true)]);
    let (_, writes) = v.tick(true, true, false);
    assert_eq!(writes, vec![w("led_red", false)]);
    let (timer, writes) = v.tick(false, true, true);
    assert!(!timer);
    assert_eq!(writes, vec![w("led_red", false), w("led_green", false)]);
}

#[test]
fn changed_delay_replays_start_sound() {
    let mut s = main_switch();
    s.target = SwitchingTarget::TurnOn;
    let (_, writes) = s.tick(false, false, false, false);
    assert_eq!(writes, vec![w("start", true)]);
    let (_, writes) = s.tick(false, false, true, false);
    assert_eq!(writes, vec![w("start", true)]);
    let mut b = WagenautomatElectric::new(5, SimpleState::Off);
    let (_, writes) = b.tick(SwitchingTarget::TurnOn, false, false, false);
    assert_eq!(writes, vec![w("snd_wagenautomat_5_start", true)]);
    let (_, writes) = b.tick(SwitchingTarget::TurnOn, false, false, false);
    assert!(writes.is_empty());
    let (_, writes) = b.tick(SwitchingTarget::TurnOn, false, true, false);
    assert_eq!(writes, vec![w("snd_wagenautomat_5_start", true)]);
}
