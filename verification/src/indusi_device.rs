//! The cab device of the Indusi I 60M: resetting a forced brake and
//! requesting an override (release).
//!
//! The device listens to the vehicle unit's messages: a forced brake for its
//! cab, whether its cab's device is switched on, and whether train
//! protection is active. While it is on, the reset button clears a forced
//! brake once the reset lock has run out, and the override button starts an
//! override while no brake is pending; the end of an override is announced
//! too. The lock and override timers are real-valued and kept by the host,
//! which hands in their outcome and starts them as told.
use vstd::prelude::*;
use crate::indusi_600m::{Indusi600mMessage, MsgIndusi600mOverride, MsgIndusi600mReset};
use crate::key_event::KeyEventCab;

verus! {

/// The abstract state of an Indusi cab device.
pub struct IndusiDeviceModel {
    pub cab_side: KeyEventCab,
    pub device_active: bool,
    pub indusi_active: bool,
    pub triggered: bool,
    pub triggered_last: bool,
    pub was_pressed_while_not_triggered: bool,
}

/// What the host hands in for a cycle.
#[derive(Debug, Clone, Copy, PartialEq, Eq)]
pub struct IndusiDeviceInputs {
    /// The device has voltage (above half the nominal voltage).
    pub powered: bool,
    /// The reset lock, advanced by this cycle, has run out (is below zero).
    pub lock_expired: bool,
    /// The reset button has just been pressed.
    pub reset_just_pressed: bool,
    /// The reset button is held.
    pub reset_held: bool,
    /// The reset button's value where resetting is allowed.
    pub reset_value: bool,
    /// The override timer was running and has run out in this cycle.
    pub override_ran_out: bool,
    /// The override timer is not running (below zero).
    pub override_idle: bool,
    /// The override button's value where an override is allowed.
    pub override_value: bool,
}

/// The outcome of a cycle.
pub struct IndusiDeviceTick {
    /// The messages to broadcast, in order.
    pub msgs: Vec<Indusi600mMessage>,
    /// A forced brake has just arrived (the reset counter advances).
    pub new_trigger: bool,
    /// The forced brake was reset (the reset counter advances).
    pub reset: bool,
    /// The override has ended.
    pub override_ended: bool,
    /// An override starts: the host starts the override timer.
    pub override_started: bool,
}

impl IndusiDeviceModel {
    /// Whether a forced brake has just arrived.
    pub open spec fn new_trigger(self) -> bool {
        self.device_active && self.triggered && !self.triggered_last
    }

    /// Whether the forced brake is reset in this cycle: the device is on, a
    /// brake is pending that did not just arrive, its lock has run out and
    /// the reset button is pressed where allowed.
    pub open spec fn resets(self, i: IndusiDeviceInputs) -> bool {
        self.device_active && self.triggered && self.triggered_last && i.lock_expired && i.reset_value
    }

    /// Whether an override starts: the device is on, the override has not
    /// just ended, no brake is pending, the override timer is idle and the
    /// override button is pressed where allowed.
    pub open spec fn starts_override(self, i: IndusiDeviceInputs) -> bool {
        self.device_active && !i.override_ran_out && !(self.triggered && !self.resets(i)) && i.override_idle
            && i.override_value
    }

    /// The messages of a cycle: the reset, then the end or the start of an
    /// override, each for this device's cab.
    pub open spec fn tick_msgs(self, i: IndusiDeviceInputs) -> Seq<Indusi600mMessage> {
        (if self.resets(i) {
            seq![Indusi600mMessage::Reset(MsgIndusi600mReset { side: self.cab_side })]
        } else {
            Seq::empty()
        }) + (if self.device_active && i.override_ran_out {
            seq![Indusi600mMessage::Override(MsgIndusi600mOverride { side: self.cab_side, value: false })]
        } else if self.starts_override(i) {
            seq![Indusi600mMessage::Override(MsgIndusi600mOverride { side: self.cab_side, value: true })]
        } else {
            Seq::empty()
        })
    }

    /// The device after a cycle.
    pub open spec fn after_tick(self, i: IndusiDeviceInputs) -> IndusiDeviceModel {
        if self.device_active {
            let trig = self.triggered && !self.resets(i);
            let pressed = self.was_pressed_while_not_triggered
                || (i.reset_just_pressed && !self.triggered && i.powered);
            IndusiDeviceModel {
                triggered: trig,
                triggered_last: trig,
                was_pressed_while_not_triggered: pressed && i.reset_held,
                ..self
            }
        } else {
            IndusiDeviceModel { was_pressed_while_not_triggered: false, ..self }
        }
    }

    /// The device after a bus message: a forced brake for its cab is
    /// pending, its cab's device switches on or off, and protection turns on
    /// or off; other messages change nothing.
    pub open spec fn after_message(self, msg: Indusi600mMessage) -> IndusiDeviceModel {
        match msg {
            Indusi600mMessage::ForcedBrake(m) => if m.side == self.cab_side {
                IndusiDeviceModel { triggered: true, ..self }
            } else {
                self
            },
            Indusi600mMessage::DeviceActive(m) => if m.side == self.cab_side {
                IndusiDeviceModel { device_active: m.value, ..self }
            } else {
                self
            },
            Indusi600mMessage::IndusiActive(m) => IndusiDeviceModel { indusi_active: m.value, ..self },
            _ => self,
        }
    }
}

/// The reset and override logic of an Indusi cab device.
#[derive(Debug)]
pub struct Indusi600mDeviceLogic {
    cab_side: KeyEventCab,
    device_active: bool,
    indusi_active: bool,
    triggered: bool,
    triggered_last: bool,
    was_pressed_while_not_triggered: bool,
}

impl View for Indusi600mDeviceLogic {
    type V = IndusiDeviceModel;

    closed spec fn view(&self) -> IndusiDeviceModel {
        IndusiDeviceModel {
            cab_side: self.cab_side,
            device_active: self.device_active,
            indusi_active: self.indusi_active,
            triggered: self.triggered,
            triggered_last: self.triggered_last,
            was_pressed_while_not_triggered: self.was_pressed_while_not_triggered,
        }
    }
}

impl Indusi600mDeviceLogic {
    /// The device of a cab, switched off, with no brake pending.
    pub fn new(cab_side: KeyEventCab) -> (res: Self)
        ensures
            res@ == (IndusiDeviceModel {
                cab_side,
                device_active: false,
                indusi_active: false,
                triggered: false,
                triggered_last: false,
                was_pressed_while_not_triggered: false,
            }),
    {
        Self {
            cab_side,
            device_active: false,
            indusi_active: false,
            triggered: false,
            triggered_last: false,
            was_pressed_while_not_triggered: false,
        }
    }

    /// Whether the device is switched on.
    pub fn device_active(&self) -> (res: bool)
        ensures
            res == self@.device_active,
    {
        self.device_active
    }

    /// The operation lamp: the device is on and protection active.
    pub fn operation_lamp(&self) -> (res: bool)
        ensures
            res == (self@.device_active && self@.indusi_active),
    {
        self.device_active && self.indusi_active
    }

    /// The reset lamp: the device is on and a forced brake is pending.
    pub fn reset_lamp(&self) -> (res: bool)
        ensures
            res == (self@.device_active && self@.triggered),
    {
        self.device_active && self.triggered
    }

    /// The digit lamp: the device is on and the reset button is held after
    /// being pressed with no brake pending.
    pub fn digit_lamp(&self) -> (res: bool)
        ensures
            res == (self@.device_active && self@.was_pressed_while_not_triggered),
    {
        self.device_active && self.was_pressed_while_not_triggered
    }

    /// One cycle.
    pub fn tick(&mut self, i: IndusiDeviceInputs) -> (res: IndusiDeviceTick)
        ensures
            res.msgs@ == old(self)@.tick_msgs(i),
            res.new_trigger == old(self)@.new_trigger(),
            res.reset == old(self)@.resets(i),
            res.override_ended == (old(self)@.device_active && i.override_ran_out),
            res.override_started == old(self)@.starts_override(i),
            final(self)@ == old(self)@.after_tick(i),
    {
        let ghost m = self@;
        let mut msgs: Vec<Indusi600mMessage> = Vec::new();
        if !self.device_active {
            self.was_pressed_while_not_triggered = false;
            assert(msgs@ =~= m.tick_msgs(i));
            return IndusiDeviceTick { msgs, new_trigger: false, reset: false, override_ended: false, override_started: false };
        }
        if i.reset_just_pressed && !self.triggered && i.powered {
            self.was_pressed_while_not_triggered = true;
        }
        self.was_pressed_while_not_triggered = self.was_pressed_while_not_triggered && i.reset_held;
        let new_trigger = self.triggered && !self.triggered_last;
        let mut reset = false;
        if !new_trigger && self.triggered && i.lock_expired && i.reset_value {
            self.triggered = false;
            msgs.push(Indusi600mMessage::Reset(MsgIndusi600mReset { side: self.cab_side }));
            reset = true;
        }
        self.triggered_last = self.triggered;
        let mut ended = false;
        let mut started = false;
        if i.override_ran_out {
            msgs.push(Indusi600mMessage::Override(MsgIndusi600mOverride { side: self.cab_side, value: false }));
            ended = true;
        } else if !self.triggered && i.override_idle && i.override_value {
            msgs.push(Indusi600mMessage::Override(MsgIndusi600mOverride { side: self.cab_side, value: true }));
            started = true;
        }
        assert(msgs@ =~= m.tick_msgs(i));
        IndusiDeviceTick { msgs, new_trigger, reset, override_ended: ended, override_started: started }
    }

    /// Takes a bus message. Returns whether a forced brake for this cab
    /// arrived: the host then starts the reset lock.
    pub fn on_message(&mut self, msg: &Indusi600mMessage) -> (res: bool)
        ensures
            res == (msg matches Indusi600mMessage::ForcedBrake(m) && m.side == old(self)@.cab_side),
            final(self)@ == old(self)@.after_message(*msg),
    {
        match msg {
            Indusi600mMessage::ForcedBrake(m) => {
                if m.side == self.cab_side {
                    self.triggered = true;
                    true
                } else {
                    false
                }
            },
            Indusi600mMessage::DeviceActive(m) => {
                if m.side == self.cab_side {
                    self.device_active = m.value;
                }
                false
            },
            Indusi600mMessage::IndusiActive(m) => {
                self.indusi_active = m.value;
                false
            },
            _ => false,
        }
    }
}

/// A switched-off device sends nothing and resets nothing.
pub proof fn lemma_inactive_device_is_silent(m: IndusiDeviceModel, i: IndusiDeviceInputs)
    requires
        !m.device_active,
    ensures
        m.tick_msgs(i) == Seq::<Indusi600mMessage>::empty(),
        m.after_tick(i).triggered == m.triggered,
{
    assert(m.tick_msgs(i) =~= Seq::<Indusi600mMessage>::empty());
}

/// A forced brake cannot be reset in the cycle it arrives, nor before its
/// lock has run out; and no override starts while a brake stays pending.
pub proof fn lemma_reset_waits_for_lock(m: IndusiDeviceModel, i: IndusiDeviceInputs)
    ensures
        m.resets(i) ==> !m.new_trigger() && i.lock_expired && m.triggered,
        m.starts_override(i) ==> !m.after_tick(i).triggered,
{
}

/// A forced brake for the device's own cab is pending after the message
/// and is reported on the reset lamp while the device is on; one for the
/// other cab changes nothing.
pub proof fn lemma_forced_brake_for_own_cab(m: IndusiDeviceModel, side: KeyEventCab)
    ensures
        ({
            let msg = Indusi600mMessage::ForcedBrake(crate::indusi_600m::MsgIndusi600mForcedBrake { side });
            &&& side == m.cab_side ==> m.after_message(msg).triggered
            &&& side != m.cab_side ==> m.after_message(msg) == m
        }),
{
}

/// A device speaks only for its own cab, and only of resets and
/// overrides: a reset is sent only for a pending brake whose lock has run
/// out while the reset button is pressed; an override is started only by
/// the switched-on device's override button while its timer is idle and
/// the last override did not just end.
pub proof fn lemma_device_sends_only_its_requests(m: IndusiDeviceModel, i: IndusiDeviceInputs)
    ensures
        forall|k: int| 0 <= k < m.tick_msgs(i).len() ==> match #[trigger] m.tick_msgs(i)[k] {
            Indusi600mMessage::Reset(r) => r.side == m.cab_side && m.device_active && m.triggered
                && i.lock_expired && i.reset_value,
            Indusi600mMessage::Override(o) => o.side == m.cab_side && m.device_active
                && (o.value ==> i.override_value && i.override_idle && !i.override_ran_out),
            _ => false,
        },
{
    let a = if m.resets(i) {
        seq![Indusi600mMessage::Reset(MsgIndusi600mReset { side: m.cab_side })]
    } else {
        Seq::empty()
    };
    let b = if m.device_active && i.override_ran_out {
        seq![Indusi600mMessage::Override(MsgIndusi600mOverride { side: m.cab_side, value: false })]
    } else if m.starts_override(i) {
        seq![Indusi600mMessage::Override(MsgIndusi600mOverride { side: m.cab_side, value: true })]
    } else {
        Seq::empty()
    };
    assert(m.tick_msgs(i) =~= a + b);
    assert forall|k: int| 0 <= k < m.tick_msgs(i).len() implies match #[trigger] m.tick_msgs(i)[k] {
        Indusi600mMessage::Reset(r) => r.side == m.cab_side && m.device_active && m.triggered
            && i.lock_expired && i.reset_value,
        Indusi600mMessage::Override(o) => o.side == m.cab_side && m.device_active
            && (o.value ==> i.override_value && i.override_idle && !i.override_ran_out),
        _ => false,
    } by {
        if k < a.len() {
            assert(m.tick_msgs(i)[k] == a[k]);
        } else {
            assert(m.tick_msgs(i)[k] == b[k - a.len()]);
        }
    }
}

} // verus!
