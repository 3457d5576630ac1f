//! The switching logic of motor-driven current collectors: third-rail
//! collector shoes and electric pantographs.
//!
//! A collector is raised and lowered by a motor relay. The relay follows
//! the switching target once the target's delay has elapsed, drops out
//! without battery or safeguard, and drops out at the end of travel. The
//! delay timer, the travel itself and the thresholds on the position are
//! real-valued and kept by the host, which hands in their outcome.
use vstd::prelude::*;
use crate::host_vars::{VarValue, VarWrite, writes_view, opt_bool_write, push_write, framed_name, indexed_name_spec};
use crate::key_event::opt_str_view;
use crate::mock_enums::ThirdRailState;
use crate::simulation_settings::realisitc_electric_supply;
use crate::sound::{Sound, SoundModel};

verus! {

/// The state of a switch or motor relay.
#[derive(Debug, Clone, Copy, PartialEq, Eq, Structural)]
pub enum SwitchingState {
    On,
    Off,
    Neutral,
}

/// A switching command. The delay after which it takes effect is kept by
/// the host.
#[derive(Debug, Clone, Copy, PartialEq, Eq, Structural)]
pub enum SwitchingTarget {
    TurnOn,
    TurnOff,
    Neutral,
}

/// The state a command aims at.
pub open spec fn target_state(t: SwitchingTarget) -> SwitchingState {
    match t {
        SwitchingTarget::TurnOn => SwitchingState::On,
        SwitchingTarget::TurnOff => SwitchingState::Off,
        SwitchingTarget::Neutral => SwitchingState::Neutral,
    }
}

impl SwitchingTarget {
    /// The state the command aims at.
    pub fn state(self) -> (res: SwitchingState)
        ensures
            res == target_state(self),
    {
        match self {
            SwitchingTarget::TurnOn => SwitchingState::On,
            SwitchingTarget::TurnOff => SwitchingState::Off,
            SwitchingTarget::Neutral => SwitchingState::Neutral,
        }
    }
}

/// The motor relay after one cycle: it takes the command's state once the
/// delay has elapsed, drops out without battery or safeguard, and drops out
/// when the collector is at the end it moves to.
pub open spec fn relais_step(
    relais: SwitchingState,
    target: SwitchingTarget,
    delay_elapsed: bool,
    battery: bool,
    safeguard: bool,
    at_top: bool,
    at_bottom: bool,
) -> SwitchingState {
    let r1 = match target {
        SwitchingTarget::TurnOn => if delay_elapsed { SwitchingState::On } else { relais },
        SwitchingTarget::TurnOff => if delay_elapsed { SwitchingState::Off } else { relais },
        SwitchingTarget::Neutral => relais,
    };
    let r2 = if !battery || !safeguard { SwitchingState::Neutral } else { r1 };
    if (r2 == SwitchingState::On && at_top) || (r2 == SwitchingState::Off && at_bottom) {
        SwitchingState::Neutral
    } else {
        r2
    }
}

/// The motor relay after one cycle (see [`relais_step`]).
pub fn motor_relais_step(
    relais: SwitchingState,
    target: SwitchingTarget,
    delay_elapsed: bool,
    battery: bool,
    safeguard: bool,
    at_top: bool,
    at_bottom: bool,
) -> (res: SwitchingState)
    ensures
        res == relais_step(relais, target, delay_elapsed, battery, safeguard, at_top, at_bottom),
{
    let mut r = relais;
    match target {
        SwitchingTarget::TurnOn => {
            if delay_elapsed {
                r = SwitchingState::On;
            }
        },
        SwitchingTarget::TurnOff => {
            if delay_elapsed {
                r = SwitchingState::Off;
            }
        },
        SwitchingTarget::Neutral => {},
    }
    if !battery || !safeguard {
        r = SwitchingState::Neutral;
    }
    match r {
        SwitchingState::On => {
            if at_top {
                r = SwitchingState::Neutral;
            }
        },
        SwitchingState::Off => {
            if at_bottom {
                r = SwitchingState::Neutral;
            }
        },
        SwitchingState::Neutral => {},
    }
    r
}

/// The abstract state of a third-rail collector's switching logic.
pub struct ThirdRailCollectorModel {
    pub spark_on_connect: bool,
    pub spark_on_disconnect: bool,
    pub motor_relais: SwitchingState,
    pub third_rail_state_last: ThirdRailState,
    pub state: SwitchingState,
    pub motor_target: SwitchingTarget,
    pub snd_on: SoundModel,
    pub snd_off: SoundModel,
    pub snd_anlauf: SoundModel,
    pub snd_ablauf: SoundModel,
}

impl ThirdRailCollectorModel {
    /// The relay sounds when the relay differs from the command's state:
    /// on — both motor sounds start; off — the on sound starts and the off
    /// sound stops; neutral — both stop.
    pub open spec fn relais_writes(self, relais: SwitchingState) -> Seq<(Seq<char>, VarValue)> {
        if relais == target_state(self.motor_target) {
            Seq::empty()
        } else {
            match relais {
                SwitchingState::On => opt_bool_write(self.snd_on.name, true) + opt_bool_write(self.snd_off.name, true),
                SwitchingState::Off => opt_bool_write(self.snd_on.name, true) + opt_bool_write(self.snd_off.name, false),
                SwitchingState::Neutral => opt_bool_write(self.snd_on.name, false) + opt_bool_write(self.snd_off.name, false),
            }
        }
    }

    /// Whether the shoe just ran onto the rail's ramp (full to partial
    /// contact) while raised.
    pub open spec fn ran_on(self, rail: ThirdRailState) -> bool {
        self.state == SwitchingState::On && rail == ThirdRailState::PartwiseConnected
            && self.third_rail_state_last == ThirdRailState::Connected
    }

    /// Whether the shoe just ran off the ramp (partial to full contact)
    /// while raised.
    pub open spec fn ran_off(self, rail: ThirdRailState) -> bool {
        self.state == SwitchingState::On && rail == ThirdRailState::Connected
            && self.third_rail_state_last == ThirdRailState::PartwiseConnected
    }

    /// The contact sounds: the run-on sound, then the run-off sound.
    pub open spec fn contact_writes(self, rail: ThirdRailState) -> Seq<(Seq<char>, VarValue)> {
        (if self.ran_on(rail) { opt_bool_write(self.snd_anlauf.name, true) } else { Seq::empty() })
            + (if self.ran_off(rail) { opt_bool_write(self.snd_ablauf.name, true) } else { Seq::empty() })
    }

    /// Whether a spark is drawn: on a contact change, where sparks are
    /// configured for it and power is drawn.
    pub open spec fn sparks(self, rail: ThirdRailState, power_usage: bool) -> bool {
        (self.ran_on(rail) && self.spark_on_connect && power_usage)
            || (self.ran_off(rail) && self.spark_on_disconnect && power_usage)
    }
}

/// What the contact part of a collector's cycle asks of the host.
pub struct CollectorSense {
    /// The sound writes, in order.
    pub writes: Vec<VarWrite>,
    /// Whether to draw a spark (of random duration, chosen by the host).
    pub spark: bool,
    /// Whether the collector delivers voltage: when raised and either the
    /// rail carries voltage or the supply is not simulated realistically
    /// (which it never is yet, so whenever raised).
    pub powered: bool,
}

/// The switching logic of a third-rail collector shoe.
#[derive(Debug)]
pub struct ThirdRailCollector {
    spark_on_connect: bool,
    spark_on_disconnect: bool,
    motor_relais: SwitchingState,
    third_rail_state_last: ThirdRailState,
    state: SwitchingState,
    pub motor_target: SwitchingTarget,
    snd_on: Sound,
    snd_off: Sound,
    snd_anlauf: Sound,
    snd_ablauf: Sound,
}

impl View for ThirdRailCollector {
    type V = ThirdRailCollectorModel;

    closed spec fn view(&self) -> ThirdRailCollectorModel {
        ThirdRailCollectorModel {
            spark_on_connect: self.spark_on_connect,
            spark_on_disconnect: self.spark_on_disconnect,
            motor_relais: self.motor_relais,
            third_rail_state_last: self.third_rail_state_last,
            state: self.state,
            motor_target: self.motor_target,
            snd_on: self.snd_on@,
            snd_off: self.snd_off@,
            snd_anlauf: self.snd_anlauf@,
            snd_ablauf: self.snd_ablauf@,
        }
    }
}

/// The builder of a third-rail collector's switching logic.
#[derive(Debug)]
pub struct ThirdRailCollectorBuilder {
    inner: ThirdRailCollector,
}

impl View for ThirdRailCollectorBuilder {
    type V = ThirdRailCollectorModel;

    closed spec fn view(&self) -> ThirdRailCollectorModel {
        self.inner@
    }
}

/// A sound with the given playback variable.
pub open spec fn simple_sound(name: Option<Seq<char>>) -> SoundModel {
    SoundModel { name, name_vol: None, name_pitch: None }
}

impl ThirdRailCollectorBuilder {
    /// Draws sparks when running onto and/or off the rail's ramp.
    pub fn add_saprk(self, on_connect: bool, on_disconnect: bool) -> (res: Self)
        ensures
            res@ == (ThirdRailCollectorModel { spark_on_connect: on_connect, spark_on_disconnect: on_disconnect, ..self@ }),
    {
        let mut s = self;
        s.inner.spark_on_connect = on_connect;
        s.inner.spark_on_disconnect = on_disconnect;
        s
    }

    /// The sound of the motor raising the shoe.
    pub fn snd_on(self, name: &str) -> (res: Self)
        ensures
            res@ == (ThirdRailCollectorModel { snd_on: simple_sound(Some(name@)), ..self@ }),
    {
        let mut s = self;
        s.inner.snd_on = Sound::new_simple(Some(name));
        s
    }

    /// The sound of the motor lowering the shoe.
    pub fn snd_off(self, name: &str) -> (res: Self)
        ensures
            res@ == (ThirdRailCollectorModel { snd_off: simple_sound(Some(name@)), ..self@ }),
    {
        let mut s = self;
        s.inner.snd_off = Sound::new_simple(Some(name));
        s
    }

    /// The sound of running onto the rail's ramp.
    pub fn snd_anlauf(self, name: &str) -> (res: Self)
        ensures
            res@ == (ThirdRailCollectorModel { snd_anlauf: simple_sound(Some(name@)), ..self@ }),
    {
        let mut s = self;
        s.inner.snd_anlauf = Sound::new_simple(Some(name));
        s
    }

    /// The sound of running off the rail's ramp.
    pub fn snd_ablauf(self, name: &str) -> (res: Self)
        ensures
            res@ == (ThirdRailCollectorModel { snd_ablauf: simple_sound(Some(name@)), ..self@ }),
    {
        let mut s = self;
        s.inner.snd_ablauf = Sound::new_simple(Some(name));
        s
    }

    /// Starts with the shoe applied (`true`) or lowered.
    pub fn init(self, applied: bool) -> (res: Self)
        ensures
            res@ == (if applied { ThirdRailCollectorModel { state: SwitchingState::On, ..self@ } } else { self@ }),
    {
        let mut s = self;
        if applied {
            s.inner.state = SwitchingState::On;
        }
        s
    }

    /// The configured collector.
    pub fn build(self) -> (res: ThirdRailCollector)
        ensures
            res@ == self@,
    {
        self.inner
    }
}

impl ThirdRailCollector {
    /// A builder for a lowered shoe without sparks or sounds.
    pub fn builder() -> (res: ThirdRailCollectorBuilder)
        ensures
            res@ == (ThirdRailCollectorModel {
                spark_on_connect: false,
                spark_on_disconnect: false,
                motor_relais: SwitchingState::Off,
                third_rail_state_last: ThirdRailState::Disconnnected,
                state: SwitchingState::Off,
                motor_target: SwitchingTarget::Neutral,
                snd_on: simple_sound(None),
                snd_off: simple_sound(None),
                snd_anlauf: simple_sound(None),
                snd_ablauf: simple_sound(None),
            }),
    {
        ThirdRailCollectorBuilder {
            inner: ThirdRailCollector {
                spark_on_connect: false,
                spark_on_disconnect: false,
                motor_relais: SwitchingState::Off,
                third_rail_state_last: ThirdRailState::Disconnnected,
                state: SwitchingState::Off,
                motor_target: SwitchingTarget::Neutral,
                snd_on: Sound::new_simple(None),
                snd_off: Sound::new_simple(None),
                snd_anlauf: Sound::new_simple(None),
                snd_ablauf: Sound::new_simple(None),
            },
        }
    }

    /// The motor part of a cycle, given whether the command's delay has
    /// elapsed, the battery, the safeguard, and whether the shoe is fully
    /// raised or lowered. Returns the relay (which the host moves the shoe
    /// by) and the motor sound writes.
    pub fn drive(&mut self, delay_elapsed: bool, battery: bool, safeguard: bool, at_top: bool, at_bottom: bool) -> (res: (SwitchingState, Vec<VarWrite>))
        ensures
            res.0 == relais_step(old(self)@.motor_relais, old(self)@.motor_target, delay_elapsed, battery, safeguard, at_top, at_bottom),
            writes_view(res.1@) == old(self)@.relais_writes(res.0),
            final(self)@ == (ThirdRailCollectorModel { motor_relais: res.0, ..old(self)@ }),
    {
        let target_last = self.motor_target.state();
        let r = motor_relais_step(self.motor_relais, self.motor_target, delay_elapsed, battery, safeguard, at_top, at_bottom);
        self.motor_relais = r;
        let mut out: Vec<VarWrite> = Vec::new();
        if r != target_last {
            match r {
                SwitchingState::On => {
                    push_write(&mut out, self.snd_on.start());
                    push_write(&mut out, self.snd_off.start());
                },
                SwitchingState::Off => {
                    push_write(&mut out, self.snd_on.start());
                    push_write(&mut out, self.snd_off.stop());
                },
                SwitchingState::Neutral => {
                    push_write(&mut out, self.snd_on.stop());
                    push_write(&mut out, self.snd_off.stop());
                },
            }
        }
        assert(writes_view(out@) =~= old(self)@.relais_writes(r));
        (r, out)
    }

    /// The contact part of a cycle, given whether power is drawn, the
    /// shoe's contact with the rail, whether the rail carries voltage, and
    /// the shoe's new state (on when raised, off when lowered, neutral in
    /// between, as the host judges its position).
    pub fn sense(&mut self, power_usage: bool, rail: ThirdRailState, rail_voltage: bool, pos_state: SwitchingState) -> (res: CollectorSense)
        ensures
            writes_view(res.writes@) == old(self)@.contact_writes(rail),
            res.spark == old(self)@.sparks(rail, power_usage),
            res.powered == (pos_state == SwitchingState::On),
            final(self)@ == (ThirdRailCollectorModel { third_rail_state_last: rail, state: pos_state, ..old(self)@ }),
    {
        let ghost m0 = self@;
        let mut out: Vec<VarWrite> = Vec::new();
        let mut spark = false;
        if self.state == SwitchingState::On && rail == ThirdRailState::PartwiseConnected
            && self.third_rail_state_last == ThirdRailState::Connected {
            push_write(&mut out, self.snd_anlauf.start());
            if self.spark_on_connect && power_usage {
                spark = true;
            }
        }
        let ghost out1 = writes_view(out@);
        if self.state == SwitchingState::On && rail == ThirdRailState::Connected
            && self.third_rail_state_last == ThirdRailState::PartwiseConnected {
            push_write(&mut out, self.snd_ablauf.start());
            if self.spark_on_disconnect && power_usage {
                spark = true;
            }
        }
        self.third_rail_state_last = rail;
        self.state = pos_state;
        let powered = self.state == SwitchingState::On && (rail_voltage || !realisitc_electric_supply());
        assert(writes_view(out@) =~= m0.contact_writes(rail));
        CollectorSense { writes: out, spark, powered }
    }

    /// The motor relay.
    pub fn motor_relais(&self) -> (res: SwitchingState)
        ensures
            res == self@.motor_relais,
    {
        self.motor_relais
    }

    /// Whether the shoe is raised, lowered or in between.
    pub fn state(&self) -> (res: SwitchingState)
        ensures
            res == self@.state,
    {
        self.state
    }
}

/// The abstract state of an electric pantograph's switching logic.
pub struct ElectricPantographModel {
    pub motor_relais: SwitchingState,
    pub motor_target: SwitchingTarget,
    pub cranc_target: SwitchingTarget,
    pub snd_up: SoundModel,
    pub snd_down: SoundModel,
}

impl ElectricPantographModel {
    /// The motor sounds when the relay changed: on — the raising sound
    /// starts and the lowering sound stops; off — the reverse; neutral —
    /// both stop.
    pub open spec fn relais_writes(self, relais: SwitchingState) -> Seq<(Seq<char>, VarValue)> {
        if relais == self.motor_relais {
            Seq::empty()
        } else {
            match relais {
                SwitchingState::On => opt_bool_write(self.snd_up.name, true) + opt_bool_write(self.snd_down.name, false),
                SwitchingState::Off => opt_bool_write(self.snd_up.name, false) + opt_bool_write(self.snd_down.name, true),
                SwitchingState::Neutral => opt_bool_write(self.snd_up.name, false) + opt_bool_write(self.snd_down.name, false),
            }
        }
    }
}

/// The switching logic of an electric pantograph, raised by a motor and
/// by a hand crank.
#[derive(Debug)]
pub struct ElectricPantograph {
    motor_relais: SwitchingState,
    pub motor_target: SwitchingTarget,
    pub cranc_target: SwitchingTarget,
    snd_up: Sound,
    snd_down: Sound,
}

impl View for ElectricPantograph {
    type V = ElectricPantographModel;

    closed spec fn view(&self) -> ElectricPantographModel {
        ElectricPantographModel {
            motor_relais: self.motor_relais,
            motor_target: self.motor_target,
            cranc_target: self.cranc_target,
            snd_up: self.snd_up@,
            snd_down: self.snd_down@,
        }
    }
}

impl ElectricPantograph {
    /// A pantograph at rest with the given motor sounds.
    pub fn new(snd_up: Option<&str>, snd_down: Option<&str>) -> (res: Self)
        ensures
            res@ == (ElectricPantographModel {
                motor_relais: SwitchingState::Neutral,
                motor_target: SwitchingTarget::Neutral,
                cranc_target: SwitchingTarget::Neutral,
                snd_up: simple_sound(opt_str_view(snd_up)),
                snd_down: simple_sound(opt_str_view(snd_down)),
            }),
    {
        ElectricPantograph {
            motor_relais: SwitchingState::Neutral,
            motor_target: SwitchingTarget::Neutral,
            cranc_target: SwitchingTarget::Neutral,
            snd_up: Sound::new_simple(snd_up),
            snd_down: Sound::new_simple(snd_down),
        }
    }

    /// The motor part of a cycle. Returns the relay and the motor sound
    /// writes; where the relay is neutral the host moves the pantograph by
    /// the crank instead.
    pub fn drive(&mut self, delay_elapsed: bool, battery: bool, safeguard: bool, at_top: bool, at_bottom: bool) -> (res: (SwitchingState, Vec<VarWrite>))
        ensures
            res.0 == relais_step(old(self)@.motor_relais, old(self)@.motor_target, delay_elapsed, battery, safeguard, at_top, at_bottom),
            writes_view(res.1@) == old(self)@.relais_writes(res.0),
            final(self)@ == (ElectricPantographModel { motor_relais: res.0, ..old(self)@ }),
    {
        let last = self.motor_relais;
        let r = motor_relais_step(self.motor_relais, self.motor_target, delay_elapsed, battery, safeguard, at_top, at_bottom);
        self.motor_relais = r;
        let mut out: Vec<VarWrite> = Vec::new();
        if r != last {
            match r {
                SwitchingState::On => {
                    push_write(&mut out, self.snd_up.start());
                    push_write(&mut out, self.snd_down.stop());
                },
                SwitchingState::Off => {
                    push_write(&mut out, self.snd_up.stop());
                    push_write(&mut out, self.snd_down.start());
                },
                SwitchingState::Neutral => {
                    push_write(&mut out, self.snd_up.stop());
                    push_write(&mut out, self.snd_down.stop());
                },
            }
        }
        assert(writes_view(out@) =~= old(self)@.relais_writes(r));
        (r, out)
    }
}

/// What moves a pantograph during a cycle: the motor where its relay is
/// switched, otherwise the hand crank, or nothing.
#[derive(Debug, Clone, Copy, PartialEq, Eq, Structural)]
pub enum PantographMotion {
    MotorUp,
    MotorDown,
    CrankUp,
    CrankDown,
    Rest,
}

/// The motion of a pantograph with the given motor relay and crank command.
pub open spec fn motion_of(relais: SwitchingState, cranc: SwitchingTarget) -> PantographMotion {
    match relais {
        SwitchingState::On => PantographMotion::MotorUp,
        SwitchingState::Off => PantographMotion::MotorDown,
        SwitchingState::Neutral => match cranc {
            SwitchingTarget::TurnOn => PantographMotion::CrankUp,
            SwitchingTarget::TurnOff => PantographMotion::CrankDown,
            SwitchingTarget::Neutral => PantographMotion::Rest,
        },
    }
}

/// The motion of a pantograph (see [`motion_of`]).
pub fn pantograph_motion(relais: SwitchingState, cranc: SwitchingTarget) -> (res: PantographMotion)
    ensures
        res == motion_of(relais, cranc),
{
    match relais {
        SwitchingState::On => PantographMotion::MotorUp,
        SwitchingState::Off => PantographMotion::MotorDown,
        SwitchingState::Neutral => match cranc {
            SwitchingTarget::TurnOn => PantographMotion::CrankUp,
            SwitchingTarget::TurnOff => PantographMotion::CrankDown,
            SwitchingTarget::Neutral => PantographMotion::Rest,
        },
    }
}

/// The name of the motor sound of overhead pantograph `id` in the given
/// direction: `snd_pantograph_<id>_up` or `snd_pantograph_<id>_down`.
pub open spec fn pantograph_sound(id: usize, dir: Seq<char>) -> SoundModel {
    simple_sound(Some(indexed_name_spec("snd_pantograph_"@, id as nat) + dir))
}

fn pantograph_snd(id: usize, dir: &str) -> (res: Sound)
    ensures
        res@ == pantograph_sound(id, dir@),
{
    let name = framed_name("snd_pantograph_", id, dir);
    Sound::new_simple(Some(name.as_str()))
}

/// The abstract state of an overhead pantograph's switching logic.
pub struct PantographModel {
    pub id: usize,
    pub motor_relais: SwitchingState,
    pub snd_up: SoundModel,
    pub snd_down: SoundModel,
}

impl PantographModel {
    /// The motor sounds of a cycle. They are written whenever the relay
    /// differs from the state the command aims at: on — the raising sound
    /// starts and the lowering sound stops; off — the reverse; neutral —
    /// both stop.
    pub open spec fn command_writes(self, target: SwitchingTarget, relais: SwitchingState) -> Seq<(Seq<char>, VarValue)> {
        if relais == target_state(target) {
            Seq::empty()
        } else {
            match relais {
                SwitchingState::On => opt_bool_write(self.snd_up.name, true) + opt_bool_write(self.snd_down.name, false),
                SwitchingState::Off => opt_bool_write(self.snd_up.name, false) + opt_bool_write(self.snd_down.name, true),
                SwitchingState::Neutral => opt_bool_write(self.snd_up.name, false) + opt_bool_write(self.snd_down.name, false),
            }
        }
    }
}

/// The switching logic of an overhead pantograph: its motor relay and
/// motor sounds. The command, with its delay, is handed in each cycle.
#[derive(Debug)]
pub struct Pantograph {
    id: usize,
    motor_relais: SwitchingState,
    snd_up: Sound,
    snd_down: Sound,
}

impl View for Pantograph {
    type V = PantographModel;

    closed spec fn view(&self) -> PantographModel {
        PantographModel {
            id: self.id,
            motor_relais: self.motor_relais,
            snd_up: self.snd_up@,
            snd_down: self.snd_down@,
        }
    }
}

impl Pantograph {
    /// Pantograph `id` with its relay at rest and the motor sounds
    /// `snd_pantograph_<id>_up` and `snd_pantograph_<id>_down`.
    pub fn new(id: usize) -> (res: Self)
        ensures
            res@ == (PantographModel {
                id,
                motor_relais: SwitchingState::Neutral,
                snd_up: pantograph_sound(id, "_up"@),
                snd_down: pantograph_sound(id, "_down"@),
            }),
    {
        Pantograph {
            id,
            motor_relais: SwitchingState::Neutral,
            snd_up: pantograph_snd(id, "_up"),
            snd_down: pantograph_snd(id, "_down"),
        }
    }

    /// The motor part of a cycle under `target`. Returns the relay and the
    /// motor sound writes; where the relay is neutral the host moves the
    /// pantograph by the crank instead (see [`motion_of`]).
    pub fn drive(
        &mut self,
        target: SwitchingTarget,
        delay_elapsed: bool,
        battery: bool,
        safeguard: bool,
        at_top: bool,
        at_bottom: bool,
    ) -> (res: (SwitchingState, Vec<VarWrite>))
        ensures
            res.0 == relais_step(old(self)@.motor_relais, target, delay_elapsed, battery, safeguard, at_top, at_bottom),
            writes_view(res.1@) == old(self)@.command_writes(target, res.0),
            final(self)@ == (PantographModel { motor_relais: res.0, ..old(self)@ }),
    {
        let r = motor_relais_step(self.motor_relais, target, delay_elapsed, battery, safeguard, at_top, at_bottom);
        self.motor_relais = r;
        let commanded = target.state();
        let mut out: Vec<VarWrite> = Vec::new();
        if r != commanded {
            match r {
                SwitchingState::On => {
                    push_write(&mut out, self.snd_up.start());
                    push_write(&mut out, self.snd_down.stop());
                },
                SwitchingState::Off => {
                    push_write(&mut out, self.snd_up.stop());
                    push_write(&mut out, self.snd_down.start());
                },
                SwitchingState::Neutral => {
                    push_write(&mut out, self.snd_up.stop());
                    push_write(&mut out, self.snd_down.stop());
                },
            }
        }
        assert(writes_view(out@) =~= old(self)@.command_writes(target, r));
        (r, out)
    }

    /// The motor relay.
    pub fn motor_relais(&self) -> (res: SwitchingState)
        ensures
            res == self@.motor_relais,
    {
        self.motor_relais
    }

    /// The pantograph's number.
    pub fn id(&self) -> (res: usize)
        ensures
            res == self@.id,
    {
        self.id
    }
}

/// Without battery or safeguard the motor relay always drops out, whatever
/// the command.
pub proof fn lemma_relais_needs_battery_and_safeguard(
    relais: SwitchingState,
    target: SwitchingTarget,
    delay_elapsed: bool,
    at_top: bool,
    at_bottom: bool,
)
    ensures
        relais_step(relais, target, delay_elapsed, false, true, at_top, at_bottom) == SwitchingState::Neutral,
        relais_step(relais, target, delay_elapsed, true, false, at_top, at_bottom) == SwitchingState::Neutral,
{
}

/// The motor never drives beyond the end of travel: fully raised it does
/// not raise, fully lowered it does not lower.
pub proof fn lemma_relais_stops_at_end(
    relais: SwitchingState,
    target: SwitchingTarget,
    delay_elapsed: bool,
    battery: bool,
    safeguard: bool,
    at_top: bool,
    at_bottom: bool,
)
    ensures
        at_top ==> relais_step(relais, target, delay_elapsed, battery, safeguard, at_top, at_bottom) != SwitchingState::On,
        at_bottom ==> relais_step(relais, target, delay_elapsed, battery, safeguard, at_top, at_bottom) != SwitchingState::Off,
{
}

/// Before its delay has elapsed a command does not change the relay,
/// except that the relay drops out without power or at the end of travel.
pub proof fn lemma_command_waits_for_delay(
    relais: SwitchingState,
    target: SwitchingTarget,
    at_top: bool,
    at_bottom: bool,
)
    requires
        !(relais == SwitchingState::On && at_top),
        !(relais == SwitchingState::Off && at_bottom),
    ensures
        relais_step(relais, target, false, true, true, at_top, at_bottom) == relais,
{
}

/// A lowered collector makes no contact sounds and draws no sparks.
pub proof fn lemma_lowered_collector_is_silent(m: ThirdRailCollectorModel, rail: ThirdRailState, power_usage: bool)
    requires
        m.state != SwitchingState::On,
    ensures
        m.contact_writes(rail) == Seq::<(Seq<char>, VarValue)>::empty(),
        !m.sparks(rail, power_usage),
{
}

/// Without battery or safeguard an electric pantograph is not operated by
/// its motor: the relay drops out and no motor sound is started.
pub proof fn lemma_pantograph_rests_without_power(
    m: ElectricPantographModel,
    delay_elapsed: bool,
    battery: bool,
    safeguard: bool,
    at_top: bool,
    at_bottom: bool,
)
    requires
        !battery || !safeguard,
    ensures
        relais_step(m.motor_relais, m.motor_target, delay_elapsed, battery, safeguard, at_top, at_bottom) == SwitchingState::Neutral,
        forall|i: int| 0 <= i < m.relais_writes(SwitchingState::Neutral).len()
            ==> #[trigger] m.relais_writes(SwitchingState::Neutral)[i].1 == VarValue::Bool(false),
        m.cranc_target == SwitchingTarget::Neutral ==> motion_of(
            relais_step(m.motor_relais, m.motor_target, delay_elapsed, battery, safeguard, at_top, at_bottom),
            m.cranc_target,
        ) == PantographMotion::Rest,
{
}

/// Without battery or safeguard an overhead pantograph is not operated by
/// its motor: the relay drops out, no motor sound is started, and without
/// a crank command it does not move.
pub proof fn lemma_overhead_pantograph_rests_without_power(
    m: PantographModel,
    target: SwitchingTarget,
    cranc: SwitchingTarget,
    delay_elapsed: bool,
    battery: bool,
    safeguard: bool,
    at_top: bool,
    at_bottom: bool,
)
    requires
        !battery || !safeguard,
    ensures
        relais_step(m.motor_relais, target, delay_elapsed, battery, safeguard, at_top, at_bottom) == SwitchingState::Neutral,
        forall|i: int| 0 <= i < m.command_writes(target, SwitchingState::Neutral).len()
            ==> #[trigger] m.command_writes(target, SwitchingState::Neutral)[i].1 == VarValue::Bool(false),
        cranc == SwitchingTarget::Neutral ==> motion_of(
            relais_step(m.motor_relais, target, delay_elapsed, battery, safeguard, at_top, at_bottom),
            cranc,
        ) == PantographMotion::Rest,
{
}

/// While the relay follows the command, an overhead pantograph writes no
/// motor sound; once the relay has reached the commanded state the sound
/// is left as it is.
pub proof fn lemma_overhead_pantograph_quiet_when_following(
    m: PantographModel,
    target: SwitchingTarget,
)
    ensures
        m.command_writes(target, target_state(target)) == Seq::<(Seq<char>, VarValue)>::empty(),
{
}

/// A third-rail collector draws a spark only while power is drawn, only
/// when raised, and only when its contact with the rail has just changed;
/// without power usage it never sparks. A raised shoe that runs onto the
/// ramp (or off it) while power is drawn sparks where it is configured to.
pub proof fn lemma_spark_needs_power_usage(m: ThirdRailCollectorModel, rail: ThirdRailState, power_usage: bool)
    ensures
        !m.sparks(rail, false),
        m.sparks(rail, power_usage) ==> power_usage && m.state == SwitchingState::On && rail != m.third_rail_state_last,
        (m.state == SwitchingState::On && power_usage && m.spark_on_connect
            && m.third_rail_state_last == ThirdRailState::Connected && rail == ThirdRailState::PartwiseConnected)
            ==> m.sparks(rail, power_usage),
        (m.state == SwitchingState::On && power_usage && m.spark_on_disconnect
            && m.third_rail_state_last == ThirdRailState::PartwiseConnected && rail == ThirdRailState::Connected)
            ==> m.sparks(rail, power_usage),
{
}

/// The motor sounds of a third-rail collector are written only when the
/// relay differs from the command's state; a relay at rest stops both
/// motor sounds; and a change of the shoe's contact sounds only while the
/// shoe is raised.
pub proof fn lemma_collector_sounds_follow_relay(m: ThirdRailCollectorModel, relais: SwitchingState, rail: ThirdRailState)
    ensures
        relais == target_state(m.motor_target) ==> m.relais_writes(relais) == Seq::<(Seq<char>, VarValue)>::empty(),
        forall|i: int| 0 <= i < m.relais_writes(SwitchingState::Neutral).len()
            ==> (#[trigger] m.relais_writes(SwitchingState::Neutral)[i]).1 == VarValue::Bool(false),
        (m.contact_writes(rail).len() > 0) ==> m.state == SwitchingState::On && rail != m.third_rail_state_last,
{
}

/// With battery and safeguard, a command whose delay has elapsed switches
/// the relay to the commanded direction unless the collector is already at
/// that end of its travel.
pub proof fn lemma_relais_follows_elapsed_command(
    relais: SwitchingState,
    target: SwitchingTarget,
    at_top: bool,
    at_bottom: bool,
)
    ensures
        target == SwitchingTarget::TurnOn && !at_top ==> relais_step(relais, target, true, true, true, at_top, at_bottom) == SwitchingState::On,
        target == SwitchingTarget::TurnOff && !at_bottom ==> relais_step(relais, target, true, true, true, at_top, at_bottom) == SwitchingState::Off,
{
}

/// The motor sounds of a pantograph follow the relay: when sounds are
/// written, the raising sound plays exactly while the relay raises and the
/// lowering sound exactly while it lowers.
pub proof fn lemma_pantograph_sounds_follow_relay(
    m: ElectricPantographModel,
    p: PantographModel,
    target: SwitchingTarget,
    relais: SwitchingState,
)
    ensures
        relais != m.motor_relais && m.snd_up.name is Some && m.snd_down.name is Some ==> {
            &&& m.relais_writes(relais).contains((m.snd_up.name.unwrap(), VarValue::Bool(relais == SwitchingState::On)))
            &&& m.relais_writes(relais).contains((m.snd_down.name.unwrap(), VarValue::Bool(relais == SwitchingState::Off)))
        },
        relais == m.motor_relais ==> m.relais_writes(relais) == Seq::<(Seq<char>, VarValue)>::empty(),
        relais != target_state(target) && p.snd_up.name is Some && p.snd_down.name is Some ==> {
            &&& p.command_writes(target, relais).contains((p.snd_up.name.unwrap(), VarValue::Bool(relais == SwitchingState::On)))
            &&& p.command_writes(target, relais).contains((p.snd_down.name.unwrap(), VarValue::Bool(relais == SwitchingState::Off)))
        },
{
    if relais != m.motor_relais && m.snd_up.name is Some && m.snd_down.name is Some {
        assert(m.relais_writes(relais)[0] == (m.snd_up.name.unwrap(), VarValue::Bool(relais == SwitchingState::On)));
        assert(m.relais_writes(relais)[1] == (m.snd_down.name.unwrap(), VarValue::Bool(relais == SwitchingState::Off)));
    }
    if relais != target_state(target) && p.snd_up.name is Some && p.snd_down.name is Some {
        assert(p.command_writes(target, relais)[0] == (p.snd_up.name.unwrap(), VarValue::Bool(relais == SwitchingState::On)));
        assert(p.command_writes(target, relais)[1] == (p.snd_down.name.unwrap(), VarValue::Bool(relais == SwitchingState::Off)));
    }
}

} // verus!
