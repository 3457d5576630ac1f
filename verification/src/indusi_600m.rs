//! The vehicle unit of the Indusi I 60M train protection.
//!
//! The unit watches the activation signals of both cabs. When both are active
//! at once it forces a brake; it reports to the cab devices which cab's device
//! and train protection are active, and it counts override requests.
//! Messages are not sent here: every operation returns the messages to
//! broadcast, in order.
use vstd::prelude::*;
use crate::key_event::KeyEventCab;

verus! {

/// Whether train protection is active in the given cab.
#[derive(Debug, Clone, Copy, PartialEq, Eq)]
pub struct MsgIndusi600mIndusiAcitve {
    pub side: KeyEventCab,
    pub value: bool,
}

/// Whether the device of the given cab is switched on.
#[derive(Debug, Clone, Copy, PartialEq, Eq)]
pub struct MsgIndusi600mDeviceAcitve {
    pub side: KeyEventCab,
    pub value: bool,
}

/// An override (release) request from a cab device: `true` starts one,
/// `false` ends one.
#[derive(Debug, Clone, Copy, PartialEq, Eq)]
pub struct MsgIndusi600mOverride {
    pub side: KeyEventCab,
    pub value: bool,
}

/// A reset of a forced brake, requested from a cab device.
#[derive(Debug, Clone, Copy, PartialEq, Eq)]
pub struct MsgIndusi600mReset {
    pub side: KeyEventCab,
}

/// A forced brake, announced to the device of the given cab.
#[derive(Debug, Clone, Copy, PartialEq, Eq)]
pub struct MsgIndusi600mForcedBrake {
    pub side: KeyEventCab,
}

/// Any message of the Indusi I 60M bus.
#[derive(Debug, Clone, Copy, PartialEq, Eq)]
pub enum Indusi600mMessage {
    IndusiActive(MsgIndusi600mIndusiAcitve),
    DeviceActive(MsgIndusi600mDeviceAcitve),
    Override(MsgIndusi600mOverride),
    Reset(MsgIndusi600mReset),
    ForcedBrake(MsgIndusi600mForcedBrake),
}

/// The abstract state of one cab side of the vehicle unit.
pub struct IndusiSideModel {
    pub cab_side: KeyEventCab,
    pub sensor_id: Seq<u32>,
    pub active_signal_last: bool,
    pub active_last: bool,
}

impl IndusiSideModel {
    /// Whether train protection counts as active on this side.
    pub open spec fn indusi_active(signal: bool, triggered: bool, bypass: bool, battery: bool) -> bool {
        signal && !triggered && !bypass && battery
    }

    /// The messages one tick of this side sends: a device message when the
    /// activation signal changed, then a protection message when the
    /// protection state changed.
    pub open spec fn tick_msgs(self, signal: bool, triggered: bool, bypass: bool, battery: bool) -> Seq<Indusi600mMessage> {
        let active = Self::indusi_active(signal, triggered, bypass, battery);
        let device = if signal != self.active_signal_last {
            seq![Indusi600mMessage::DeviceActive(MsgIndusi600mDeviceAcitve { side: self.cab_side, value: signal })]
        } else {
            Seq::empty()
        };
        let protection = if active != self.active_last {
            seq![Indusi600mMessage::IndusiActive(MsgIndusi600mIndusiAcitve { side: self.cab_side, value: active })]
        } else {
            Seq::empty()
        };
        device + protection
    }

    /// The side after one tick: it remembers the signal and the protection state.
    pub open spec fn after_tick(self, signal: bool, triggered: bool, bypass: bool, battery: bool) -> IndusiSideModel {
        IndusiSideModel {
            active_signal_last: signal,
            active_last: Self::indusi_active(signal, triggered, bypass, battery),
            ..self
        }
    }

    /// The forced-brake message for this side's device.
    pub open spec fn brake_msg(self) -> Indusi600mMessage {
        Indusi600mMessage::ForcedBrake(MsgIndusi600mForcedBrake { side: self.cab_side })
    }
}

/// The messages of an optional side: none where the side is missing.
pub open spec fn opt_side_tick_msgs(side: Option<IndusiSideModel>, signal: bool, triggered: bool, bypass: bool, battery: bool) -> Seq<Indusi600mMessage> {
    match side {
        Some(s) => s.tick_msgs(signal, triggered, bypass, battery),
        None => Seq::empty(),
    }
}

/// An optional side after one tick.
pub open spec fn opt_side_after_tick(side: Option<IndusiSideModel>, signal: bool, triggered: bool, bypass: bool, battery: bool) -> Option<IndusiSideModel> {
    match side {
        Some(s) => Some(s.after_tick(signal, triggered, bypass, battery)),
        None => None,
    }
}

/// The forced-brake message of an optional side.
pub open spec fn opt_side_brake_msgs(side: Option<IndusiSideModel>) -> Seq<Indusi600mMessage> {
    match side {
        Some(s) => seq![s.brake_msg()],
        None => Seq::empty(),
    }
}

/// The abstract state of the vehicle unit.
pub struct IndusiUnitModel {
    pub side_a: Option<IndusiSideModel>,
    pub side_b: Option<IndusiSideModel>,
    pub active_signal_a_last: bool,
    pub active_signal_b_last: bool,
    pub active_a_last: bool,
    pub active_b_last: bool,
    pub bypass_switch: bool,
    pub triggered: bool,
    pub overriden: int,
}

impl IndusiUnitModel {
    /// Whether this tick forces a brake: both activation signals are on
    /// while no forced brake is pending.
    pub open spec fn brakes_now(self, signal_a: bool, signal_b: bool) -> bool {
        !self.triggered && signal_a && signal_b
    }

    /// Whether a forced brake is pending after this tick.
    pub open spec fn triggered_after(self, signal_a: bool, signal_b: bool) -> bool {
        self.triggered || self.brakes_now(signal_a, signal_b)
    }

    /// The messages of one tick: the forced-brake messages of both sides
    /// where the brake is forced now, then the messages of side A and of side B.
    pub open spec fn tick_msgs(self, signal_a: bool, signal_b: bool, bypass: bool, battery: bool) -> Seq<Indusi600mMessage> {
        let trig = self.triggered_after(signal_a, signal_b);
        let brake = if self.brakes_now(signal_a, signal_b) {
            opt_side_brake_msgs(self.side_a) + opt_side_brake_msgs(self.side_b)
        } else {
            Seq::empty()
        };
        brake + opt_side_tick_msgs(self.side_a, signal_a && battery, trig, bypass, battery)
            + opt_side_tick_msgs(self.side_b, signal_b && battery, trig, bypass, battery)
    }

    /// The unit after one tick.
    pub open spec fn after_tick(self, signal_a: bool, signal_b: bool, bypass: bool, battery: bool) -> IndusiUnitModel {
        let trig = self.triggered_after(signal_a, signal_b);
        IndusiUnitModel {
            side_a: opt_side_after_tick(self.side_a, signal_a && battery, trig, bypass, battery),
            side_b: opt_side_after_tick(self.side_b, signal_b && battery, trig, bypass, battery),
            bypass_switch: bypass,
            triggered: trig,
            overriden: if battery { self.overriden } else { 0 },
            ..self
        }
    }

    /// The unit after a message: an override request counts up or down
    /// (never below zero), a reset clears the forced brake, and any other
    /// message changes nothing.
    pub open spec fn after_message(self, msg: Indusi600mMessage) -> IndusiUnitModel {
        match msg {
            Indusi600mMessage::Override(m) => IndusiUnitModel {
                overriden: if m.value {
                    self.overriden + 1
                } else if self.overriden - 1 < 0 {
                    0
                } else {
                    self.overriden - 1
                },
                ..self
            },
            Indusi600mMessage::Reset(_) => IndusiUnitModel { triggered: false, ..self },
            _ => self,
        }
    }

    /// The unit's invariant: the override count is never negative, side A
    /// belongs to cab A and side B to cab B.
    pub open spec fn wf(self) -> bool {
        &&& self.overriden >= 0
        &&& (self.side_a matches Some(a) ==> a.cab_side == KeyEventCab::ACab)
        &&& (self.side_b matches Some(b) ==> b.cab_side == KeyEventCab::BCab)
    }
}

/// One cab side of the vehicle unit, listening to its track magnets.
pub struct Indusi600mVehicleUnitSide {
    cab_side: KeyEventCab,
    sensor_id: Vec<u32>,
    active_signal_last: bool,
    active_last: bool,
}

impl View for Indusi600mVehicleUnitSide {
    type V = IndusiSideModel;

    closed spec fn view(&self) -> IndusiSideModel {
        IndusiSideModel {
            cab_side: self.cab_side,
            sensor_id: self.sensor_id@,
            active_signal_last: self.active_signal_last,
            active_last: self.active_last,
        }
    }
}

impl Indusi600mVehicleUnitSide {
    /// A side listening to the given sensors; there is none without sensors.
    pub fn new(sensor_id: Vec<u32>, cab_side: KeyEventCab) -> (res: Option<Self>)
        ensures
            res is None <==> sensor_id@.len() == 0,
            res matches Some(s) ==> s@ == (IndusiSideModel {
                cab_side,
                sensor_id: sensor_id@,
                active_signal_last: false,
                active_last: false,
            }),
    {
        if sensor_id.len() == 0 {
            None
        } else {
            Some(Self { cab_side, sensor_id, active_signal_last: false, active_last: false })
        }
    }

    /// Updates the side with its activation signal and the unit's state, and
    /// appends the messages on changes to `out`.
    pub fn tick(
        &mut self,
        active_signal: bool,
        triggered: bool,
        bypass_switch: bool,
        battery: bool,
        out: &mut Vec<Indusi600mMessage>,
    )
        ensures
            final(out)@ == old(out)@ + old(self)@.tick_msgs(active_signal, triggered, bypass_switch, battery),
            final(self)@ == old(self)@.after_tick(active_signal, triggered, bypass_switch, battery),
    {
        let ghost m0 = self@;
        let ghost out0 = out@;
        if active_signal != self.active_signal_last {
            self.active_signal_last = active_signal;
            out.push(Indusi600mMessage::DeviceActive(MsgIndusi600mDeviceAcitve { value: active_signal, side: self.cab_side }));
        }
        let ghost out1 = out@;
        let indusi_active = active_signal && !triggered && !bypass_switch && battery;
        if indusi_active != self.active_last {
            self.active_last = indusi_active;
            out.push(Indusi600mMessage::IndusiActive(MsgIndusi600mIndusiAcitve { side: self.cab_side, value: indusi_active }));
        }
        proof {
            let msgs = m0.tick_msgs(active_signal, triggered, bypass_switch, battery);
            assert(out@ =~= out0 + msgs);
            assert(self@ == m0.after_tick(active_signal, triggered, bypass_switch, battery));
        }
    }

    /// Appends the forced-brake message for this side's device to `out`.
    fn trigger(&mut self, out: &mut Vec<Indusi600mMessage>)
        ensures
            final(out)@ == old(out)@.push(old(self)@.brake_msg()),
            final(self)@ == old(self)@,
    {
        out.push(Indusi600mMessage::ForcedBrake(MsgIndusi600mForcedBrake { side: self.cab_side }));
    }

    /// A vehicle passed one of the track sensors; magnets are not evaluated
    /// yet, so nothing changes.
    pub fn on_trigger(&mut self, sensor: u32, entering: bool)
        ensures
            final(self)@ == old(self)@,
    {
    }
}

/// The vehicle unit of the Indusi I 60M: one optional side per cab.
pub struct Indusi600mVehicleUnit {
    side_a: Option<Indusi600mVehicleUnitSide>,
    side_b: Option<Indusi600mVehicleUnitSide>,
    active_signal_a_last: bool,
    active_signal_b_last: bool,
    active_a_last: bool,
    active_b_last: bool,
    bypass_switch: bool,
    triggered: bool,
    overriden: i32,
}

/// The model of an optional side.
pub open spec fn opt_side_view(s: Option<Indusi600mVehicleUnitSide>) -> Option<IndusiSideModel> {
    match s {
        Some(x) => Some(x@),
        None => None,
    }
}

impl View for Indusi600mVehicleUnit {
    type V = IndusiUnitModel;

    closed spec fn view(&self) -> IndusiUnitModel {
        IndusiUnitModel {
            side_a: opt_side_view(self.side_a),
            side_b: opt_side_view(self.side_b),
            active_signal_a_last: self.active_signal_a_last,
            active_signal_b_last: self.active_signal_b_last,
            active_a_last: self.active_a_last,
            active_b_last: self.active_b_last,
            bypass_switch: self.bypass_switch,
            triggered: self.triggered,
            overriden: self.overriden as int,
        }
    }
}

impl Indusi600mVehicleUnit {
    /// A unit with the sensors of cab A and cab B; a cab without sensors has
    /// no side.
    pub fn new(side_a: Vec<u32>, side_b: Vec<u32>) -> (res: Self)
        ensures
            res@.wf(),
            res@.side_a == (if side_a@.len() == 0 { None } else {
                Some(IndusiSideModel { cab_side: KeyEventCab::ACab, sensor_id: side_a@, active_signal_last: false, active_last: false })
            }),
            res@.side_b == (if side_b@.len() == 0 { None } else {
                Some(IndusiSideModel { cab_side: KeyEventCab::BCab, sensor_id: side_b@, active_signal_last: false, active_last: false })
            }),
            !res@.active_signal_a_last,
            !res@.active_signal_b_last,
            !res@.active_a_last,
            !res@.active_b_last,
            !res@.bypass_switch,
            !res@.triggered,
            res@.overriden == 0,
    {
        let a = Indusi600mVehicleUnitSide::new(side_a, KeyEventCab::ACab);
        let b = Indusi600mVehicleUnitSide::new(side_b, KeyEventCab::BCab);
        Self {
            side_a: a,
            side_b: b,
            active_signal_a_last: false,
            active_signal_b_last: false,
            active_a_last: false,
            active_b_last: false,
            bypass_switch: false,
            triggered: false,
            overriden: 0,
        }
    }

    /// One cycle with the activation signals of both cabs, the bypass switch
    /// and the battery. Returns the messages to broadcast, in order.
    pub fn tick(
        &mut self,
        active_signal_a: bool,
        active_signal_b: bool,
        bypass_switch: bool,
        battery: bool,
    ) -> (msgs: Vec<Indusi600mMessage>)
        requires
            old(self)@.wf(),
        ensures
            final(self)@.wf(),
            msgs@ == old(self)@.tick_msgs(active_signal_a, active_signal_b, bypass_switch, battery),
            final(self)@ == old(self)@.after_tick(active_signal_a, active_signal_b, bypass_switch, battery),
    {
        let ghost m0 = self@;
        let mut out: Vec<Indusi600mMessage> = Vec::new();
        self.bypass_switch = bypass_switch;
        if !self.triggered && active_signal_a && active_signal_b {
            self.trigger(&mut out);
        }
        let ghost out1 = out@;
        let ghost trig = self.triggered;
        assert(trig == m0.triggered_after(active_signal_a, active_signal_b));
        assert(out1 =~= if m0.brakes_now(active_signal_a, active_signal_b) {
            opt_side_brake_msgs(m0.side_a) + opt_side_brake_msgs(m0.side_b)
        } else {
            Seq::empty()
        });
        let triggered = self.triggered;
        if let Some(side) = &mut self.side_a {
            side.tick(active_signal_a && battery, triggered, bypass_switch, battery, &mut out);
        }
        let ghost out2 = out@;
        assert(out2 =~= out1 + opt_side_tick_msgs(m0.side_a, active_signal_a && battery, trig, bypass_switch, battery));
        if let Some(side) = &mut self.side_b {
            side.tick(active_signal_b && battery, triggered, bypass_switch, battery, &mut out);
        }
        if !battery {
            self.overriden = 0;
        }
        assert(out@ =~= m0.tick_msgs(active_signal_a, active_signal_b, bypass_switch, battery));
        assert(self@ == m0.after_tick(active_signal_a, active_signal_b, bypass_switch, battery));
        out
    }

    /// Forces a brake unless one is pending, and appends the forced-brake
    /// messages of both sides to `out`.
    fn trigger(&mut self, out: &mut Vec<Indusi600mMessage>)
        ensures
            final(self)@ == (IndusiUnitModel { triggered: true, ..old(self)@ }),
            final(out)@ == old(out)@ + (if old(self)@.triggered {
                Seq::empty()
            } else {
                opt_side_brake_msgs(old(self)@.side_a) + opt_side_brake_msgs(old(self)@.side_b)
            }),
    {
        let ghost m0 = self@;
        let ghost out0 = out@;
        if !self.triggered {
            self.triggered = true;
            if let Some(side) = &mut self.side_a {
                side.trigger(out);
            }
            if let Some(side) = &mut self.side_b {
                side.trigger(out);
            }
            assert(out@ =~= out0 + opt_side_brake_msgs(m0.side_a) + opt_side_brake_msgs(m0.side_b));
        } else {
            assert(out@ =~= out0 + Seq::<Indusi600mMessage>::empty());
        }
    }

    /// Whether a forced brake is in effect: one is pending and the bypass
    /// switch does not cut it out.
    pub fn is_triggered(&mut self) -> (res: bool)
        ensures
            res == (old(self)@.triggered && !old(self)@.bypass_switch),
            final(self)@ == old(self)@,
    {
        self.triggered && !self.bypass_switch
    }

    /// The number of override requests currently counted.
    pub fn override_count(&self) -> (res: i32)
        ensures
            res == self@.overriden,
    {
        self.overriden
    }

    /// Handles a bus message: override requests are counted (never below
    /// zero) and a reset clears the forced brake; other messages are ignored.
    pub fn on_message(&mut self, msg: &Indusi600mMessage)
        requires
            old(self)@.wf(),
            msg matches Indusi600mMessage::Override(m) && m.value ==> old(self)@.overriden < i32::MAX,
        ensures
            final(self)@.wf(),
            final(self)@ == old(self)@.after_message(*msg),
    {
        match msg {
            Indusi600mMessage::Override(m) => {
                if m.value {
                    self.overriden = self.overriden + 1;
                } else {
                    self.overriden = if self.overriden - 1 < 0 { 0 } else { self.overriden - 1 };
                }
            },
            Indusi600mMessage::Reset(_) => {
                self.triggered = false;
            },
            _ => {},
        }
    }

    /// A vehicle passed a track sensor; it is handed to both sides.
    pub fn on_trigger(&mut self, sensor: u32, entering: bool)
        ensures
            final(self)@ == old(self)@,
    {
        if let Some(side) = &mut self.side_a {
            side.on_trigger(sensor, entering);
        }
        if let Some(side) = &mut self.side_b {
            side.on_trigger(sensor, entering);
        }
    }
}

/// A tick in which both cabs' activation signals are on always leaves a
/// forced brake pending.
pub proof fn lemma_both_signals_force_brake(u: IndusiUnitModel, bypass: bool, battery: bool)
    ensures
        u.after_tick(true, true, bypass, battery).triggered,
{
}

/// A tick never clears a pending forced brake; only a reset message does.
pub proof fn lemma_tick_keeps_forced_brake(u: IndusiUnitModel, signal_a: bool, signal_b: bool, bypass: bool, battery: bool)
    requires
        u.triggered,
    ensures
        u.after_tick(signal_a, signal_b, bypass, battery).triggered,
{
}

/// While a forced brake is pending, a tick sends no further forced-brake
/// message.
pub proof fn lemma_forced_brake_sent_once(u: IndusiUnitModel, signal_a: bool, signal_b: bool, bypass: bool, battery: bool)
    requires
        u.triggered,
    ensures
        forall|i: int| 0 <= i < u.tick_msgs(signal_a, signal_b, bypass, battery).len()
            ==> !(#[trigger] u.tick_msgs(signal_a, signal_b, bypass, battery)[i] is ForcedBrake),
{
    let msgs = u.tick_msgs(signal_a, signal_b, bypass, battery);
    let trig = u.triggered_after(signal_a, signal_b);
    let ma = opt_side_tick_msgs(u.side_a, signal_a && battery, trig, bypass, battery);
    let mb = opt_side_tick_msgs(u.side_b, signal_b && battery, trig, bypass, battery);
    assert(msgs =~= Seq::<Indusi600mMessage>::empty() + ma + mb);
    assert forall|i: int| 0 <= i < msgs.len() implies !(#[trigger] msgs[i] is ForcedBrake) by {
        if i < ma.len() {
            assert(msgs[i] == ma[i]);
        } else {
            assert(msgs[i] == mb[i - ma.len()]);
        }
    }
}

/// Messages are only sent on changes: a second tick with the same inputs
/// sends nothing and leaves the unit as it was.
pub proof fn lemma_repeated_tick_is_silent(u: IndusiUnitModel, signal_a: bool, signal_b: bool, bypass: bool, battery: bool)
    ensures
        ({
            let v = u.after_tick(signal_a, signal_b, bypass, battery);
            &&& v.tick_msgs(signal_a, signal_b, bypass, battery) =~= Seq::<Indusi600mMessage>::empty()
            &&& v.after_tick(signal_a, signal_b, bypass, battery) == v
        }),
{
}

/// Without battery voltage, a tick drops all override requests.
pub proof fn lemma_no_battery_clears_overrides(u: IndusiUnitModel, signal_a: bool, signal_b: bool, bypass: bool)
    ensures
        u.after_tick(signal_a, signal_b, bypass, false).overriden == 0,
{
}

/// A reset clears the forced brake, so the unit no longer reports one.
pub proof fn lemma_reset_releases_brake(u: IndusiUnitModel, side: KeyEventCab)
    ensures
        !u.after_message(Indusi600mMessage::Reset(MsgIndusi600mReset { side })).triggered,
{
}

/// An override request followed by its end leaves the override count as it
/// was.
pub proof fn lemma_override_then_release(u: IndusiUnitModel, s1: KeyEventCab, s2: KeyEventCab)
    requires
        u.wf(),
    ensures
        u.after_message(Indusi600mMessage::Override(MsgIndusi600mOverride { side: s1, value: true }))
            .after_message(Indusi600mMessage::Override(MsgIndusi600mOverride { side: s2, value: false }))
            == u,
{
}

/// Every message and every tick keeps the override count non-negative.
pub proof fn lemma_override_count_never_negative(u: IndusiUnitModel, msg: Indusi600mMessage, signal_a: bool, signal_b: bool, bypass: bool, battery: bool)
    requires
        u.wf(),
    ensures
        u.after_message(msg).wf(),
        u.after_tick(signal_a, signal_b, bypass, battery).wf(),
{
}

/// The forced-brake messages of a double cab signal: one per present side,
/// addressed to cab A, then to cab B.
pub open spec fn double_signal_brake_msgs(u: IndusiUnitModel) -> Seq<Indusi600mMessage> {
    (if u.side_a is Some {
        seq![Indusi600mMessage::ForcedBrake(MsgIndusi600mForcedBrake { side: KeyEventCab::ACab })]
    } else {
        Seq::empty()
    }) + (if u.side_b is Some {
        seq![Indusi600mMessage::ForcedBrake(MsgIndusi600mForcedBrake { side: KeyEventCab::BCab })]
    } else {
        Seq::empty()
    })
}

/// Both cab signals at once force a brake: the tick first sends one
/// forced-brake message per present side, addressed to cab A and cab B, and
/// no further forced-brake message; every protection message of the tick
/// reports protection off; and the unit then reports the brake unless
/// bypassed.
pub proof fn lemma_double_signal_brakes_both_cabs(u: IndusiUnitModel, bypass: bool, battery: bool)
    requires
        u.wf(),
        !u.triggered,
    ensures
        ({
            let msgs = u.tick_msgs(true, true, bypass, battery);
            let n = double_signal_brake_msgs(u).len();
            let after = u.after_tick(true, true, bypass, battery);
            &&& msgs.take(n as int) == double_signal_brake_msgs(u)
            &&& forall|i: int| n <= i < msgs.len() ==> !(#[trigger] msgs[i] is ForcedBrake)
            &&& forall|i: int| 0 <= i < msgs.len() ==> (#[trigger] msgs[i] matches Indusi600mMessage::IndusiActive(m) ==> !m.value)
            &&& after.triggered
            &&& (after.triggered && !after.bypass_switch) == !bypass
        }),
{
    let msgs = u.tick_msgs(true, true, bypass, battery);
    let brake = opt_side_brake_msgs(u.side_a) + opt_side_brake_msgs(u.side_b);
    let ra = opt_side_tick_msgs(u.side_a, battery, true, bypass, battery);
    let rb = opt_side_tick_msgs(u.side_b, battery, true, bypass, battery);
    assert(brake =~= double_signal_brake_msgs(u));
    assert(msgs =~= brake + ra + rb);
    let n = brake.len();
    assert(msgs.take(n as int) =~= brake);
    assert forall|i: int| n <= i < msgs.len() implies !(#[trigger] msgs[i] is ForcedBrake) by {
        if i < n + ra.len() {
            assert(msgs[i] == ra[i - n]);
        } else {
            assert(msgs[i] == rb[i - n - ra.len()]);
        }
    }
    assert forall|i: int| 0 <= i < msgs.len() implies (#[trigger] msgs[i] matches Indusi600mMessage::IndusiActive(m) ==> !m.value) by {
        if i < n {
            assert(msgs[i] == brake[i]);
        } else if i < n + ra.len() {
            assert(msgs[i] == ra[i - n]);
        } else {
            assert(msgs[i] == rb[i - n - ra.len()]);
        }
    }
}

/// What one side reports of train protection: a report of active
/// protection comes only with the side's signal, without a pending brake,
/// without the bypass switch and with battery, and is addressed to the
/// side's own cab.
proof fn lemma_side_reports_protection_only_when_armed(
    s: IndusiSideModel,
    signal: bool,
    triggered: bool,
    bypass: bool,
    battery: bool,
)
    ensures
        forall|i: int| 0 <= i < s.tick_msgs(signal, triggered, bypass, battery).len()
            ==> (#[trigger] s.tick_msgs(signal, triggered, bypass, battery)[i] matches Indusi600mMessage::IndusiActive(m)
                ==> (m.side == s.cab_side && (m.value ==> signal && !triggered && !bypass && battery))),
        s.after_tick(signal, triggered, bypass, battery).active_last ==> signal && !triggered && !bypass && battery,
{
    let msgs = s.tick_msgs(signal, triggered, bypass, battery);
    let device = if signal != s.active_signal_last {
        seq![Indusi600mMessage::DeviceActive(MsgIndusi600mDeviceAcitve { side: s.cab_side, value: signal })]
    } else {
        Seq::empty()
    };
    let active = IndusiSideModel::indusi_active(signal, triggered, bypass, battery);
    let protection = if active != s.active_last {
        seq![Indusi600mMessage::IndusiActive(MsgIndusi600mIndusiAcitve { side: s.cab_side, value: active })]
    } else {
        Seq::empty()
    };
    assert(msgs =~= device + protection);
    assert forall|i: int| 0 <= i < msgs.len() implies (#[trigger] msgs[i] matches Indusi600mMessage::IndusiActive(m)
        ==> (m.side == s.cab_side && (m.value ==> signal && !triggered && !bypass && battery))) by {
        if i < device.len() {
            assert(msgs[i] == device[i]);
        } else {
            assert(msgs[i] == protection[i - device.len()]);
        }
    }
}

/// Whether a message reports protection active only under the given
/// conditions.
spec fn reports_only_armed(msg: Indusi600mMessage, battery: bool, bypass: bool, trig: bool, signal_a: bool, signal_b: bool) -> bool {
    msg matches Indusi600mMessage::IndusiActive(m) ==> (m.value ==> battery && !bypass && !trig
        && (m.side == KeyEventCab::ACab ==> signal_a)
        && (m.side == KeyEventCab::BCab ==> signal_b))
}

proof fn lemma_all_concat(x: Seq<Indusi600mMessage>, y: Seq<Indusi600mMessage>, battery: bool, bypass: bool, trig: bool, signal_a: bool, signal_b: bool)
    requires
        forall|i: int| 0 <= i < x.len() ==> reports_only_armed(#[trigger] x[i], battery, bypass, trig, signal_a, signal_b),
        forall|i: int| 0 <= i < y.len() ==> reports_only_armed(#[trigger] y[i], battery, bypass, trig, signal_a, signal_b),
    ensures
        forall|i: int| 0 <= i < (x + y).len() ==> reports_only_armed(#[trigger] (x + y)[i], battery, bypass, trig, signal_a, signal_b),
{
    assert forall|i: int| 0 <= i < (x + y).len() implies reports_only_armed(#[trigger] (x + y)[i], battery, bypass, trig, signal_a, signal_b) by {
        if i < x.len() {
            assert((x + y)[i] == x[i]);
        } else {
            assert((x + y)[i] == y[i - x.len()]);
        }
    }
}

proof fn lemma_side_armed(side: Option<IndusiSideModel>, cab: KeyEventCab, signal: bool, trig: bool, bypass: bool, battery: bool, signal_a: bool, signal_b: bool)
    requires
        side matches Some(s) ==> s.cab_side == cab,
        cab == KeyEventCab::ACab ==> signal == (signal_a && battery),
        cab == KeyEventCab::BCab ==> signal == (signal_b && battery),
    ensures
        forall|i: int| 0 <= i < opt_side_tick_msgs(side, signal, trig, bypass, battery).len()
            ==> reports_only_armed(#[trigger] opt_side_tick_msgs(side, signal, trig, bypass, battery)[i], battery, bypass, trig, signal_a, signal_b),
{
    if let Some(s) = side {
        lemma_side_reports_protection_only_when_armed(s, signal, trig, bypass, battery);
    }
}

proof fn lemma_brake_msgs_armed(u: IndusiUnitModel, battery: bool, bypass: bool, trig: bool, signal_a: bool, signal_b: bool)
    ensures
        forall|i: int| 0 <= i < (opt_side_brake_msgs(u.side_a) + opt_side_brake_msgs(u.side_b)).len()
            ==> reports_only_armed(#[trigger] (opt_side_brake_msgs(u.side_a) + opt_side_brake_msgs(u.side_b))[i], battery, bypass, trig, signal_a, signal_b),
{
    let x = opt_side_brake_msgs(u.side_a);
    let y = opt_side_brake_msgs(u.side_b);
    assert forall|i: int| 0 <= i < x.len() implies reports_only_armed(#[trigger] x[i], battery, bypass, trig, signal_a, signal_b) by {}
    assert forall|i: int| 0 <= i < y.len() implies reports_only_armed(#[trigger] y[i], battery, bypass, trig, signal_a, signal_b) by {}
    lemma_all_concat(x, y, battery, bypass, trig, signal_a, signal_b);
}

/// The unit reports train protection as active only where it is armed: with
/// battery, without the bypass switch, without a pending (or newly forced)
/// brake, and with the activation signal of the reporting cab. Afterwards a
/// side remembers protection as active only under the same conditions.
pub proof fn lemma_protection_reported_only_when_armed(
    u: IndusiUnitModel,
    signal_a: bool,
    signal_b: bool,
    bypass: bool,
    battery: bool,
)
    requires
        u.wf(),
    ensures
        ({
            let msgs = u.tick_msgs(signal_a, signal_b, bypass, battery);
            let after = u.after_tick(signal_a, signal_b, bypass, battery);
            &&& forall|i: int| 0 <= i < msgs.len() ==> (#[trigger] msgs[i] matches Indusi600mMessage::IndusiActive(m)
                ==> (m.value ==> battery && !bypass && !after.triggered
                    && (m.side == KeyEventCab::ACab ==> signal_a)
                    && (m.side == KeyEventCab::BCab ==> signal_b)))
            &&& (after.side_a matches Some(a) && a.active_last ==> battery && !bypass && !after.triggered && signal_a)
            &&& (after.side_b matches Some(b) && b.active_last ==> battery && !bypass && !after.triggered && signal_b)
        }),
{
    let msgs = u.tick_msgs(signal_a, signal_b, bypass, battery);
    let trig = u.triggered_after(signal_a, signal_b);
    let brake = if u.brakes_now(signal_a, signal_b) {
        opt_side_brake_msgs(u.side_a) + opt_side_brake_msgs(u.side_b)
    } else {
        Seq::empty()
    };
    let ra = opt_side_tick_msgs(u.side_a, signal_a && battery, trig, bypass, battery);
    let rb = opt_side_tick_msgs(u.side_b, signal_b && battery, trig, bypass, battery);
    assert(msgs =~= brake + ra + rb);
    lemma_brake_msgs_armed(u, battery, bypass, trig, signal_a, signal_b);
    lemma_side_armed(u.side_a, KeyEventCab::ACab, signal_a && battery, trig, bypass, battery, signal_a, signal_b);
    lemma_side_armed(u.side_b, KeyEventCab::BCab, signal_b && battery, trig, bypass, battery, signal_a, signal_b);
    lemma_all_concat(brake, ra, battery, bypass, trig, signal_a, signal_b);
    lemma_all_concat(brake + ra, rb, battery, bypass, trig, signal_a, signal_b);
    if let Some(a) = u.side_a {
        lemma_side_reports_protection_only_when_armed(a, signal_a && battery, trig, bypass, battery);
    }
    if let Some(b) = u.side_b {
        lemma_side_reports_protection_only_when_armed(b, signal_b && battery, trig, bypass, battery);
    }
    assert forall|i: int| 0 <= i < msgs.len() implies (#[trigger] msgs[i] matches Indusi600mMessage::IndusiActive(m)
        ==> (m.value ==> battery && !bypass && !trig
            && (m.side == KeyEventCab::ACab ==> signal_a)
            && (m.side == KeyEventCab::BCab ==> signal_b))) by {
        assert(reports_only_armed(msgs[i], battery, bypass, trig, signal_a, signal_b));
    }
}

/// While the bypass switch is on, a tick never reports train protection as
/// active, and afterwards neither side remembers it as active.
pub proof fn lemma_bypass_hides_protection(u: IndusiUnitModel, signal_a: bool, signal_b: bool, battery: bool)
    requires
        u.wf(),
    ensures
        ({
            let msgs = u.tick_msgs(signal_a, signal_b, true, battery);
            let after = u.after_tick(signal_a, signal_b, true, battery);
            &&& forall|i: int| 0 <= i < msgs.len() ==> (#[trigger] msgs[i] matches Indusi600mMessage::IndusiActive(m) ==> !m.value)
            &&& (after.side_a matches Some(a) ==> !a.active_last)
            &&& (after.side_b matches Some(b) ==> !b.active_last)
        }),
{
    lemma_protection_reported_only_when_armed(u, signal_a, signal_b, true, battery);
    let msgs = u.tick_msgs(signal_a, signal_b, true, battery);
    assert forall|i: int| 0 <= i < msgs.len() implies (#[trigger] msgs[i] matches Indusi600mMessage::IndusiActive(m) ==> !m.value) by {
        assert(msgs[i] matches Indusi600mMessage::IndusiActive(m) ==> (m.value ==> !true));
    }
}

spec fn reports_signal(msg: Indusi600mMessage, signal_a: bool, signal_b: bool) -> bool {
    msg matches Indusi600mMessage::DeviceActive(m) ==> ((m.side == KeyEventCab::ACab ==> m.value == signal_a)
        && (m.side == KeyEventCab::BCab ==> m.value == signal_b))
}

proof fn lemma_all_concat_signal(x: Seq<Indusi600mMessage>, y: Seq<Indusi600mMessage>, signal_a: bool, signal_b: bool)
    requires
        forall|i: int| 0 <= i < x.len() ==> reports_signal(#[trigger] x[i], signal_a, signal_b),
        forall|i: int| 0 <= i < y.len() ==> reports_signal(#[trigger] y[i], signal_a, signal_b),
    ensures
        forall|i: int| 0 <= i < (x + y).len() ==> reports_signal(#[trigger] (x + y)[i], signal_a, signal_b),
{
    assert forall|i: int| 0 <= i < (x + y).len() implies reports_signal(#[trigger] (x + y)[i], signal_a, signal_b) by {
        if i < x.len() {
            assert((x + y)[i] == x[i]);
        } else {
            assert((x + y)[i] == y[i - x.len()]);
        }
    }
}

proof fn lemma_side_reports_signal(side: Option<IndusiSideModel>, cab: KeyEventCab, signal: bool, trig: bool, bypass: bool, battery: bool, signal_a: bool, signal_b: bool)
    requires
        side matches Some(s) ==> s.cab_side == cab,
        cab == KeyEventCab::ACab ==> signal == signal_a,
        cab == KeyEventCab::BCab ==> signal == signal_b,
    ensures
        forall|i: int| 0 <= i < opt_side_tick_msgs(side, signal, trig, bypass, battery).len()
            ==> reports_signal(#[trigger] opt_side_tick_msgs(side, signal, trig, bypass, battery)[i], signal_a, signal_b),
{
    if let Some(s) = side {
        let msgs = s.tick_msgs(signal, trig, bypass, battery);
        let device = if signal != s.active_signal_last {
            seq![Indusi600mMessage::DeviceActive(MsgIndusi600mDeviceAcitve { side: s.cab_side, value: signal })]
        } else {
            Seq::empty()
        };
        let active = IndusiSideModel::indusi_active(signal, trig, bypass, battery);
        let protection = if active != s.active_last {
            seq![Indusi600mMessage::IndusiActive(MsgIndusi600mIndusiAcitve { side: s.cab_side, value: active })]
        } else {
            Seq::empty()
        };
        assert(msgs =~= device + protection);
        assert forall|i: int| 0 <= i < msgs.len() implies reports_signal(#[trigger] msgs[i], signal_a, signal_b) by {
            if i < device.len() {
                assert(msgs[i] == device[i]);
            } else {
                assert(msgs[i] == protection[i - device.len()]);
            }
        }
    }
}

/// Each cab's device is reported as it is: every device message of a tick
/// tells, for its cab, whether that cab's activation signal is on with
/// battery voltage. A cab whose signal is on with battery, and was not
/// reported so before, is reported on.
pub proof fn lemma_device_messages_report_signal(
    u: IndusiUnitModel,
    signal_a: bool,
    signal_b: bool,
    bypass: bool,
    battery: bool,
)
    requires
        u.wf(),
    ensures
        ({
            let msgs = u.tick_msgs(signal_a, signal_b, bypass, battery);
            &&& forall|i: int| 0 <= i < msgs.len() ==> (#[trigger] msgs[i] matches Indusi600mMessage::DeviceActive(m)
                ==> ((m.side == KeyEventCab::ACab ==> m.value == (signal_a && battery))
                    && (m.side == KeyEventCab::BCab ==> m.value == (signal_b && battery))))
            &&& (u.side_a matches Some(a) && signal_a && battery && !a.active_signal_last ==> msgs.contains(
                Indusi600mMessage::DeviceActive(MsgIndusi600mDeviceAcitve { side: KeyEventCab::ACab, value: true })))
        }),
{
    let msgs = u.tick_msgs(signal_a, signal_b, bypass, battery);
    let sa = signal_a && battery;
    let sb = signal_b && battery;
    let trig = u.triggered_after(signal_a, signal_b);
    let brake = if u.brakes_now(signal_a, signal_b) {
        opt_side_brake_msgs(u.side_a) + opt_side_brake_msgs(u.side_b)
    } else {
        Seq::empty()
    };
    let ra = opt_side_tick_msgs(u.side_a, sa, trig, bypass, battery);
    let rb = opt_side_tick_msgs(u.side_b, sb, trig, bypass, battery);
    assert(msgs =~= brake + ra + rb);
    assert forall|i: int| 0 <= i < brake.len() implies reports_signal(#[trigger] brake[i], sa, sb) by {
        if u.brakes_now(signal_a, signal_b) {
            let ba = opt_side_brake_msgs(u.side_a);
            if i < ba.len() {
                assert(brake[i] == ba[i]);
            } else {
                assert(brake[i] == opt_side_brake_msgs(u.side_b)[i - ba.len()]);
            }
        }
    }
    lemma_side_reports_signal(u.side_a, KeyEventCab::ACab, sa, trig, bypass, battery, sa, sb);
    lemma_side_reports_signal(u.side_b, KeyEventCab::BCab, sb, trig, bypass, battery, sa, sb);
    lemma_all_concat_signal(brake, ra, sa, sb);
    lemma_all_concat_signal(brake + ra, rb, sa, sb);
    assert forall|i: int| 0 <= i < msgs.len() implies (#[trigger] msgs[i] matches Indusi600mMessage::DeviceActive(m)
        ==> ((m.side == KeyEventCab::ACab ==> m.value == (signal_a && battery))
            && (m.side == KeyEventCab::BCab ==> m.value == (signal_b && battery)))) by {
        assert(reports_signal(msgs[i], sa, sb));
    }
    if let Some(a) = u.side_a {
        if sa && !a.active_signal_last {
            let d = Indusi600mMessage::DeviceActive(MsgIndusi600mDeviceAcitve { side: KeyEventCab::ACab, value: true });
            assert(ra[0] == d);
            assert(msgs[brake.len() as int] == d);
        }
    }
}

} // verus!
