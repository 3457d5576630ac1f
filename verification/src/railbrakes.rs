//! The switching of magnetic rail brakes.
//!
//! The brakes are applied while their (delayed) command holds and the
//! control voltage is present; they sound when applied and when released.
//! The command's delay, the brake force, the animation and the friction
//! sound are real-valued and handled by the host.
use vstd::prelude::*;
use crate::current_collector::simple_sound;
use crate::host_vars::{VarValue, VarWrite, writes_view, push_write, opt_bool_write};
use crate::main_switch::start_if;
use crate::sound::{Sound, SoundModel};

verus! {

/// The abstract state of the rail brakes.
pub struct RailbrakesModel {
    pub state: bool,
    pub state_last: bool,
    pub snd_railbrake_on: SoundModel,
    pub snd_railbrake_off: SoundModel,
}

impl RailbrakesModel {
    /// The sounds when the brakes change from `self.state_last` to `state`.
    pub open spec fn edge_writes(self, state: bool) -> Seq<(Seq<char>, VarValue)> {
        start_if(!self.state_last && state, self.snd_railbrake_on) + start_if(self.state_last && !state, self.snd_railbrake_off)
    }
}

/// A builder of rail brakes.
pub struct RailbrakesBuilder {
    snd_railbrake_on: Sound,
    snd_railbrake_off: Sound,
}

impl View for RailbrakesBuilder {
    type V = RailbrakesModel;

    closed spec fn view(&self) -> RailbrakesModel {
        RailbrakesModel {
            state: false,
            state_last: false,
            snd_railbrake_on: self.snd_railbrake_on@,
            snd_railbrake_off: self.snd_railbrake_off@,
        }
    }
}

impl RailbrakesBuilder {
    /// The sound when the brakes are applied.
    pub fn snd_railbrake_on(self, name: &str) -> (res: Self)
        ensures
            res@ == (RailbrakesModel { snd_railbrake_on: simple_sound(Some(name@)), ..self@ }),
    {
        RailbrakesBuilder { snd_railbrake_on: Sound::new_simple(Some(name)), ..self }
    }

    /// The sound when the brakes are released.
    pub fn snd_railbrake_off(self, name: &str) -> (res: Self)
        ensures
            res@ == (RailbrakesModel { snd_railbrake_off: simple_sound(Some(name@)), ..self@ }),
    {
        RailbrakesBuilder { snd_railbrake_off: Sound::new_simple(Some(name)), ..self }
    }

    /// The friction sound. It takes the place of the release sound: its
    /// variable is the one started when the brakes are released; the
    /// friction level itself is real-valued and set by the host.
    pub fn snd_railbrake_friction(self, name: &str) -> (res: Self)
        ensures
            res@ == (RailbrakesModel { snd_railbrake_off: simple_sound(Some(name@)), ..self@ }),
    {
        RailbrakesBuilder { snd_railbrake_off: Sound::new_simple(Some(name)), ..self }
    }

    /// Released rail brakes.
    pub fn build(self) -> (res: Railbrakes)
        ensures
            res@ == self@,
    {
        Railbrakes {
            snd_railbrake_on: self.snd_railbrake_on,
            snd_railbrake_off: self.snd_railbrake_off,
            state: false,
            state_last: false,
        }
    }
}

/// Magnetic rail brakes.
#[derive(Debug)]
pub struct Railbrakes {
    snd_railbrake_on: Sound,
    snd_railbrake_off: Sound,
    /// Whether the brakes are applied.
    pub state: bool,
    state_last: bool,
}

impl View for Railbrakes {
    type V = RailbrakesModel;

    closed spec fn view(&self) -> RailbrakesModel {
        RailbrakesModel {
            state: self.state,
            state_last: self.state_last,
            snd_railbrake_on: self.snd_railbrake_on@,
            snd_railbrake_off: self.snd_railbrake_off@,
        }
    }
}

impl Railbrakes {
    /// A builder of released rail brakes without sounds.
    pub fn builder() -> (res: RailbrakesBuilder)
        ensures
            res@ == (RailbrakesModel {
                state: false,
                state_last: false,
                snd_railbrake_on: simple_sound(None),
                snd_railbrake_off: simple_sound(None),
            }),
    {
        RailbrakesBuilder { snd_railbrake_on: Sound::new_simple(None), snd_railbrake_off: Sound::new_simple(None) }
    }

    /// One cycle: the brakes are applied while the delayed command holds and
    /// the control voltage is present. Returns whether they are applied and
    /// the sounds of a change.
    pub fn tick(&mut self, delayed_target: bool, control_voltage_ok: bool) -> (res: (bool, Vec<VarWrite>))
        ensures
            res.0 == (delayed_target && control_voltage_ok),
            writes_view(res.1@) == old(self)@.edge_writes(res.0),
            final(self)@ == (RailbrakesModel { state: res.0, state_last: res.0, ..old(self)@ }),
    {
        let ghost m = self@;
        self.state = delayed_target && control_voltage_ok;
        let mut out: Vec<VarWrite> = Vec::new();
        if !self.state_last && self.state {
            push_write(&mut out, self.snd_railbrake_on.start());
        }
        if self.state_last && !self.state {
            push_write(&mut out, self.snd_railbrake_off.start());
        }
        assert(writes_view(out@) =~= m.edge_writes(self.state));
        self.state_last = self.state;
        (self.state, out)
    }
}

/// Holding the brakes in one state sounds nothing after the first cycle:
/// a repeated cycle with the same inputs is silent.
pub proof fn lemma_steady_brakes_are_silent(m: RailbrakesModel, state: bool)
    ensures
        (RailbrakesModel { state, state_last: state, ..m }).edge_writes(state) == Seq::<(Seq<char>, VarValue)>::empty(),
{
    assert((RailbrakesModel { state, state_last: state, ..m }).edge_writes(state) =~= Seq::<(Seq<char>, VarValue)>::empty());
}

/// Applying released brakes sounds the applying sound and not the releasing
/// one; releasing applied brakes sounds the releasing sound and not the
/// applying one.
pub proof fn lemma_brake_sounds_follow_change(m: RailbrakesModel)
    ensures
        !m.state_last ==> m.edge_writes(true) == opt_bool_write(m.snd_railbrake_on.name, true),
        m.state_last ==> m.edge_writes(false) == opt_bool_write(m.snd_railbrake_off.name, true),
{
    assert(!m.state_last ==> m.edge_writes(true) =~= opt_bool_write(m.snd_railbrake_on.name, true));
    assert(m.state_last ==> m.edge_writes(false) =~= opt_bool_write(m.snd_railbrake_off.name, true));
}

} // verus!
