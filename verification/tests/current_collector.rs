use pandemist_vehicle_elements::current_collector::{
    motor_relais_step, pantograph_motion, ElectricPantograph, Pantograph, PantographMotion, SwitchingState,
    SwitchingTarget, ThirdRailCollector,
};
use pandemist_vehicle_elements::host_vars::{VarValue, VarWrite};
use pandemist_vehicle_elements::mock_enums::ThirdRailState;

fn w(name: &str, v: bool) -> VarWrite {
    VarWrite { name: name.to_string(), value: VarValue::Bool(v) }
}

#[test]
fn relais_follows_command_after_delay() {
    assert_eq!(motor_relais_step(SwitchingState::Off, SwitchingTarget::TurnOn, false, true, true, false, false), SwitchingState::Off);
    assert_eq!(motor_relais_step(SwitchingState::Off, SwitchingTarget::TurnOn, true, true, true, false, false), SwitchingState::On);
    assert_eq!(motor_relais_step(SwitchingState::On, SwitchingTarget::TurnOn, true, true, true, true, false), SwitchingState::Neutral);
    assert_eq!(motor_relais_step(SwitchingState::On, SwitchingTarget::TurnOff, true, true, true, true, false), SwitchingState::Off);
    assert_eq!(motor_relais_step(SwitchingState::Off, SwitchingTarget::Neutral, true, true, true, false, true), SwitchingState::Neutral);
    assert_eq!(motor_relais_step(SwitchingState::On, SwitchingTarget::TurnOn, true, false, true, false, false), SwitchingState::Neutral);
    assert_eq!(motor_relais_step(SwitchingState::On, SwitchingTarget::TurnOn, true, true, false, false, false), SwitchingState::Neutral);
    assert_eq!(SwitchingTarget::TurnOff.state(), SwitchingState::Off);
}

#[test]
fn third_rail_collector_cycle() {
    let mut c = ThirdRailCollector::builder()
        .add_saprk(true, false)
        .snd_on("on")
        .snd_off("off")
        .snd_anlauf("anlauf")
        .snd_ablauf("ablauf")
        .init(true)
        .build();
    assert_eq!(c.state(), SwitchingState::On);
    c.motor_target = SwitchingTarget::TurnOff;
    let (r, writes) = c.drive(true, true, true, true, false);
    assert_eq!(r, SwitchingState::Off);
    assert!(writes.is_empty());
    let (r, writes) = c.drive(false, false, true, true, false);
    assert_eq!(r, SwitchingState::Neutral);
    assert_eq!(writes, vec![w("on", false), w("off", false)]);
    assert_eq!(c.motor_relais(), SwitchingState::Neutral);

    let s = c.sense(true, ThirdRailState::Connected, true, SwitchingState::On);
    assert!(s.writes.is_empty());
    assert!(s.powered);
    let s = c.sense(true, ThirdRailState::PartwiseConnected, true, SwitchingState::On);
    assert_eq!(s.writes, vec![w("anlauf", true)]);
    assert!(s.spark);
    let s = c.sense(true, ThirdRailState::Connected, true, SwitchingState::On);
    assert_eq!(s.writes, vec![w("ablauf", true)]);
    assert!(!s.spark);
    let s = c.sense(false, ThirdRailState::Disconnnected, false, SwitchingState::Off);
    assert!(!s.powered);
}

#[test]
fn electric_pantograph_motor_sounds() {
    let mut p = ElectricPantograph::new(Some("up"), Some("down"));
    p.motor_target = SwitchingTarget::TurnOn;
    let (r, writes) = p.drive(true, true, true, false, false);
    assert_eq!(r, SwitchingState::On);
    assert_eq!(writes, vec![w("up", true), w("down", false)]);
    let (_, writes) = p.drive(true, true, true, false, false);
    assert!(writes.is_empty());
    let (r, writes) = p.drive(true, true, true, true, false);
    assert_eq!(r, SwitchingState::Neutral);
    assert_eq!(writes, vec![w("up", false), w("down", false)]);
}

#[test]
fn overhead_pantograph_names_its_sounds() {
    let mut p = Pantograph::new(2);
    assert_eq!(p.id(), 2);
    assert_eq!(p.motor_relais(), SwitchingState::Neutral);
    let (r, writes) = p.drive(SwitchingTarget::TurnOn, true, true, true, false, false);
    assert_eq!(r, SwitchingState::On);
    // the relay follows the command: nothing is written
    assert!(writes.is_empty());
    // at the top the relay drops out while the command still asks for on
    let (r, writes) = p.drive(SwitchingTarget::TurnOn, true, true, true, true, false);
    assert_eq!(r, SwitchingState::Neutral);
    assert_eq!(writes, vec![w("snd_pantograph_2_up", false), w("snd_pantograph_2_down", false)]);
}

#[test]
fn overhead_pantograph_sounds_while_relay_differs_from_command() {
    let mut p = Pantograph::new(0);
    let _ = p.drive(SwitchingTarget::TurnOff, true, true, true, false, false);
    assert_eq!(p.motor_relais(), SwitchingState::Off);
    // the command is withdrawn, the relay keeps lowering: the sounds are written every cycle
    for _ in 0..2 {
        let (r, writes) = p.drive(SwitchingTarget::Neutral, false, true, true, false, false);
        assert_eq!(r, SwitchingState::Off);
        assert_eq!(writes, vec![w("snd_pantograph_0_up", false), w("snd_pantograph_0_down", true)]);
    }
}

#[test]
fn pantograph_without_power_rests() {
    let mut p = Pantograph::new(1);
    let (r, writes) = p.drive(SwitchingTarget::TurnOn, true, false, true, false, false);
    assert_eq!(r, SwitchingState::Neutral);
    assert_eq!(writes, vec![w("snd_pantograph_1_up", false), w("snd_pantograph_1_down", false)]);
    assert_eq!(pantograph_motion(r, SwitchingTarget::Neutral), PantographMotion::Rest);
    assert_eq!(pantograph_motion(r, SwitchingTarget::TurnOn), PantographMotion::CrankUp);
    assert_eq!(pantograph_motion(r, SwitchingTarget::TurnOff), PantographMotion::CrankDown);
    assert_eq!(pantograph_motion(SwitchingState::On, SwitchingTarget::TurnOff), PantographMotion::MotorUp);
    assert_eq!(pantograph_motion(SwitchingState::Off, SwitchingTarget::TurnOn), PantographMotion::MotorDown);
}
