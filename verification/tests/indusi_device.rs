use pandemist_vehicle_elements::indusi_600m::{
    Indusi600mMessage, MsgIndusi600mDeviceAcitve, MsgIndusi600mForcedBrake, MsgIndusi600mIndusiAcitve,
    MsgIndusi600mOverride, MsgIndusi600mReset,
};
use pandemist_vehicle_elements::indusi_device::{Indusi600mDeviceLogic, IndusiDeviceInputs};
use pandemist_vehicle_elements::key_event::KeyEventCab;

fn idle() -> IndusiDeviceInputs {
    IndusiDeviceInputs {
        powered: true,
        lock_expired: false,
        reset_just_pressed: false,
        reset_held: false,
        reset_value: false,
        override_ran_out: false,
        override_idle: true,
        override_value: false,
    }
}

fn active_device(cab: KeyEventCab) -> Indusi600mDeviceLogic {
    let mut d = Indusi600mDeviceLogic::new(cab);
    d.on_message(&Indusi600mMessage::DeviceActive(MsgIndusi600mDeviceAcitve { side: cab, value: true }));
    d
}

#[test]
fn switched_off_device_sends_nothing() {
    let mut d = Indusi600mDeviceLogic::new(KeyEventCab::ACab);
    assert!(!d.device_active());
    let t = d.tick(IndusiDeviceInputs { override_value: true, reset_value: true, lock_expired: true, ..idle() });
    assert!(t.msgs.is_empty());
    assert!(!t.override_started && !t.reset);
}

#[test]
fn device_follows_its_cab_messages_only() {
    let mut d = Indusi600mDeviceLogic::new(KeyEventCab::ACab);
    d.on_message(&Indusi600mMessage::DeviceActive(MsgIndusi600mDeviceAcitve { side: KeyEventCab::BCab, value: true }));
    assert!(!d.device_active());
    d.on_message(&Indusi600mMessage::DeviceActive(MsgIndusi600mDeviceAcitve { side: KeyEventCab::ACab, value: true }));
    assert!(d.device_active());
    assert!(!d.operation_lamp());
    d.on_message(&Indusi600mMessage::IndusiActive(MsgIndusi600mIndusiAcitve { side: KeyEventCab::BCab, value: true }));
    assert!(d.operation_lamp());
    assert!(!d.on_message(&Indusi600mMessage::ForcedBrake(MsgIndusi600mForcedBrake { side: KeyEventCab::BCab })));
    assert!(!d.reset_lamp());
    assert!(d.on_message(&Indusi600mMessage::ForcedBrake(MsgIndusi600mForcedBrake { side: KeyEventCab::ACab })));
    assert!(d.reset_lamp());
}

#[test]
fn forced_brake_is_reset_after_lock() {
    let mut d = active_device(KeyEventCab::BCab);
    d.on_message(&Indusi600mMessage::ForcedBrake(MsgIndusi600mForcedBrake { side: KeyEventCab::BCab }));
    // first cycle: the brake has just arrived, no reset even with the button
    let t = d.tick(IndusiDeviceInputs { lock_expired: true, reset_value: true, ..idle() });
    assert!(t.new_trigger);
    assert!(!t.reset);
    assert!(d.reset_lamp());
    // lock not run out: no reset
    let t = d.tick(IndusiDeviceInputs { reset_value: true, ..idle() });
    assert!(!t.reset && t.msgs.is_empty());
    // lock run out and button: reset message for this cab
    let t = d.tick(IndusiDeviceInputs { lock_expired: true, reset_value: true, ..idle() });
    assert!(t.reset);
    assert_eq!(t.msgs, vec![Indusi600mMessage::Reset(MsgIndusi600mReset { side: KeyEventCab::BCab })]);
    assert!(!d.reset_lamp());
}

#[test]
fn override_starts_and_ends() {
    let mut d = active_device(KeyEventCab::ACab);
    let t = d.tick(IndusiDeviceInputs { override_value: true, ..idle() });
    assert!(t.override_started);
    assert_eq!(
        t.msgs,
        vec![Indusi600mMessage::Override(MsgIndusi600mOverride { side: KeyEventCab::ACab, value: true })]
    );
    // while the override timer runs, no new override
    let t = d.tick(IndusiDeviceInputs { override_value: true, override_idle: false, ..idle() });
    assert!(!t.override_started && t.msgs.is_empty());
    let t = d.tick(IndusiDeviceInputs { override_ran_out: true, override_idle: false, ..idle() });
    assert!(t.override_ended);
    assert_eq!(
        t.msgs,
        vec![Indusi600mMessage::Override(MsgIndusi600mOverride { side: KeyEventCab::ACab, value: false })]
    );
}

#[test]
fn no_override_while_brake_pending() {
    let mut d = active_device(KeyEventCab::ACab);
    d.on_message(&Indusi600mMessage::ForcedBrake(MsgIndusi600mForcedBrake { side: KeyEventCab::ACab }));
    let t = d.tick(IndusiDeviceInputs { override_value: true, ..idle() });
    assert!(!t.override_started);
    assert!(t.msgs.is_empty());
}

#[test]
fn digit_lamp_while_button_held_without_brake() {
    let mut d = active_device(KeyEventCab::ACab);
    assert!(!d.digit_lamp());
    d.tick(IndusiDeviceInputs { reset_just_pressed: true, reset_held: true, ..idle() });
    assert!(d.digit_lamp());
    d.tick(IndusiDeviceInputs { reset_held: true, ..idle() });
    assert!(d.digit_lamp());
    d.tick(idle());
    assert!(!d.digit_lamp());
    // without voltage a press does not light it
    d.tick(IndusiDeviceInputs { powered: false, reset_just_pressed: true, reset_held: true, ..idle() });
    assert!(!d.digit_lamp());
}
