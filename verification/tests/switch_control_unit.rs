use pandemist_vehicle_elements::switch_control_unit::{
    RoutingCode, RoutingDirection, RoutingMessage, RoutingRequest, SwitchSender, SwtichControlUnit,
};

#[test]
fn new_unit_follows_nothing() {
    let unit = SwtichControlUnit::new(vec![SwitchSender::Vehicle, SwitchSender::Modul(1)], 42);
    assert_eq!(unit.get_current_switch_target(), RoutingDirection::Off);
    assert_eq!(unit.current(), RoutingDirection::Off);
}

#[test]
fn vehicle_request_is_followed() {
    let mut unit = SwtichControlUnit::new(vec![SwitchSender::Modul(1), SwitchSender::Vehicle], 42);
    unit.on_message(&RoutingMessage::Direction(RoutingDirection::Left));
    assert_eq!(unit.current(), RoutingDirection::Left);
    unit.on_message(&RoutingMessage::Direction(RoutingDirection::Straight));
    assert_eq!(unit.current(), RoutingDirection::Straight);
    unit.on_message(&RoutingMessage::Direction(RoutingDirection::Off));
    assert_eq!(unit.current(), RoutingDirection::Off);
}

#[test]
fn unlisted_sender_is_not_followed() {
    let mut unit = SwtichControlUnit::new(vec![SwitchSender::Modul(3)], 1);
    unit.on_message(&RoutingMessage::Direction(RoutingDirection::Right));
    assert_eq!(unit.current(), RoutingDirection::Off);
}

#[test]
fn other_messages_and_triggers() {
    let mut unit = SwtichControlUnit::new(vec![SwitchSender::Vehicle], 42);
    unit.on_message(&RoutingMessage::Code(RoutingCode { value: 815 }));
    unit.on_message(&RoutingMessage::Request(RoutingRequest {}));
    assert_eq!(unit.current(), RoutingDirection::Off);
    unit.on_trigger(42, true);
    unit.on_trigger(99, false);
    unit.tick(true, false, true);
    assert_eq!(unit.get_current_switch_target(), RoutingDirection::Off);
    assert_eq!(RoutingDirection::default(), RoutingDirection::Off);
}
