//! Supply switches: the main switch, closed by a hand lever or by a remote
//! command, and the battery main switch of the low-voltage level.
//!
//! A remote command takes effect once its delay has elapsed. The delay timer
//! is real-valued and kept by the host: each cycle it hands in whether the
//! timer, advanced by the frame time, is past the command's delay, and it
//! learns whether the timer keeps running or is reset. The lever's position
//! is real-valued too; the host hands in whether it has just crossed the
//! closing threshold in either direction.
use vstd::prelude::*;
use crate::current_collector::{SwitchingTarget, simple_sound};
use crate::host_vars::{VarValue, VarWrite, writes_view, opt_bool_write, push_write};
use crate::sound::{Sound, SoundModel};

verus! {

/// The abstract state of a main switch.
pub struct MainSwitchModel {
    pub state: bool,
    pub switching_allowed: bool,
    pub target: SwitchingTarget,
    pub target_last: SwitchingTarget,
    pub snd_turn_on_start: SoundModel,
    pub snd_turn_on: SoundModel,
    pub snd_turn_off: SoundModel,
    pub snd_trigger: SoundModel,
}

/// The switch after the lever: it closes when the lever has just been
/// pushed past the threshold and opens when it has just been pulled back.
pub open spec fn after_lever(state: bool, closed: bool, opened: bool) -> bool {
    if opened {
        false
    } else if closed {
        true
    } else {
        state
    }
}

/// Whether a remote command is pending: closing an open switch or opening
/// a closed one. Only then does the delay timer run.
pub open spec fn command_pending(target: SwitchingTarget, state: bool) -> bool {
    (target == SwitchingTarget::TurnOn && !state) || (target == SwitchingTarget::TurnOff && state)
}

/// The start of a sound, where it has a variable.
pub open spec fn start_of(s: SoundModel) -> Seq<(Seq<char>, VarValue)> {
    opt_bool_write(s.name, true)
}

/// The start of a sound where `cond` holds, else nothing.
pub open spec fn start_if(cond: bool, s: SoundModel) -> Seq<(Seq<char>, VarValue)> {
    if cond {
        start_of(s)
    } else {
        Seq::empty()
    }
}

impl MainSwitchModel {
    /// The state after the lever and then the remote command.
    pub open spec fn next_state(self, closed: bool, opened: bool, delay_elapsed: bool) -> bool {
        let s1 = after_lever(self.state, closed, opened);
        if command_pending(self.target, s1) && delay_elapsed && self.switching_allowed {
            !s1
        } else {
            s1
        }
    }

    /// The sounds of a cycle: closing by the lever, opening by the lever,
    /// then, for a pending close, the start-up sound when the command has
    /// just changed (its kind, or only its delay: `delay_changed`) and the
    /// closing sound when it takes effect, or, for a pending open, the
    /// opening sound when it takes effect.
    pub open spec fn tick_writes(self, closed: bool, opened: bool, delay_changed: bool, delay_elapsed: bool) -> Seq<(Seq<char>, VarValue)> {
        let s1 = after_lever(self.state, closed, opened);
        let fires = delay_elapsed && self.switching_allowed;
        start_if(closed && !self.state, self.snd_turn_on)
            + start_if(opened, self.snd_turn_off)
            + (if self.target == SwitchingTarget::TurnOn && !s1 {
                start_if(self.target_last != self.target || delay_changed, self.snd_turn_on_start) + start_if(fires, self.snd_turn_on)
            } else if self.target == SwitchingTarget::TurnOff && s1 {
                start_if(fires, self.snd_turn_off)
            } else {
                Seq::empty()
            })
    }
}

/// A builder of a main switch.
pub struct MainSwitchBuilder {
    state: bool,
    snd_turn_on_start: Sound,
    snd_turn_on: Sound,
    snd_turn_off: Sound,
    snd_trigger: Sound,
}

impl View for MainSwitchBuilder {
    type V = MainSwitchModel;

    closed spec fn view(&self) -> MainSwitchModel {
        MainSwitchModel {
            state: self.state,
            switching_allowed: true,
            target: SwitchingTarget::Neutral,
            target_last: SwitchingTarget::Neutral,
            snd_turn_on_start: self.snd_turn_on_start@,
            snd_turn_on: self.snd_turn_on@,
            snd_turn_off: self.snd_turn_off@,
            snd_trigger: self.snd_trigger@,
        }
    }
}

impl MainSwitchBuilder {
    /// Starts closed where `state` is set; otherwise leaves the switch as it
    /// is.
    pub fn init(self, state: bool) -> (res: Self)
        ensures
            res@ == (MainSwitchModel { state: self@.state || state, ..self@ }),
    {
        let mut b = self;
        if state {
            b.state = true;
        }
        b
    }

    /// The sound when a remote close command begins.
    pub fn snd_turn_on_start(self, name: &str) -> (res: Self)
        ensures
            res@ == (MainSwitchModel { snd_turn_on_start: simple_sound(Some(name@)), ..self@ }),
    {
        MainSwitchBuilder { snd_turn_on_start: Sound::new_simple(Some(name)), ..self }
    }

    /// The sound when the switch closes.
    pub fn snd_turn_on(self, name: &str) -> (res: Self)
        ensures
            res@ == (MainSwitchModel { snd_turn_on: simple_sound(Some(name@)), ..self@ }),
    {
        MainSwitchBuilder { snd_turn_on: Sound::new_simple(Some(name)), ..self }
    }

    /// The sound when the switch opens.
    pub fn snd_turn_off(self, name: &str) -> (res: Self)
        ensures
            res@ == (MainSwitchModel { snd_turn_off: simple_sound(Some(name@)), ..self@ }),
    {
        MainSwitchBuilder { snd_turn_off: Sound::new_simple(Some(name)), ..self }
    }

    /// The sound when the switch trips.
    pub fn snd_trigger(self, name: &str) -> (res: Self)
        ensures
            res@ == (MainSwitchModel { snd_trigger: simple_sound(Some(name@)), ..self@ }),
    {
        MainSwitchBuilder { snd_trigger: Sound::new_simple(Some(name)), ..self }
    }

    /// The main switch, with switching allowed and no command.
    pub fn build(self) -> (res: MainSwitch)
        ensures
            res@ == self@,
    {
        MainSwitch {
            state: self.state,
            switching_allowed: true,
            target: SwitchingTarget::Neutral,
            target_last: SwitchingTarget::Neutral,
            snd_turn_on_start: self.snd_turn_on_start,
            snd_turn_on: self.snd_turn_on,
            snd_turn_off: self.snd_turn_off,
            snd_trigger: self.snd_trigger,
        }
    }
}

/// The main switch.
#[derive(Debug)]
pub struct MainSwitch {
    /// Whether the switch is closed.
    pub state: bool,
    /// Whether a remote command may close or open the switch.
    pub switching_allowed: bool,
    /// The remote command.
    pub target: SwitchingTarget,
    target_last: SwitchingTarget,
    snd_turn_on_start: Sound,
    snd_turn_on: Sound,
    snd_turn_off: Sound,
    snd_trigger: Sound,
}

impl View for MainSwitch {
    type V = MainSwitchModel;

    closed spec fn view(&self) -> MainSwitchModel {
        MainSwitchModel {
            state: self.state,
            switching_allowed: self.switching_allowed,
            target: self.target,
            target_last: self.target_last,
            snd_turn_on_start: self.snd_turn_on_start@,
            snd_turn_on: self.snd_turn_on@,
            snd_turn_off: self.snd_turn_off@,
            snd_trigger: self.snd_trigger@,
        }
    }
}

impl MainSwitch {
    /// A builder of an open main switch without sounds.
    pub fn builder() -> (res: MainSwitchBuilder)
        ensures
            res@ == (MainSwitchModel {
                state: false,
                switching_allowed: true,
                target: SwitchingTarget::Neutral,
                target_last: SwitchingTarget::Neutral,
                snd_turn_on_start: simple_sound(None),
                snd_turn_on: simple_sound(None),
                snd_turn_off: simple_sound(None),
                snd_trigger: simple_sound(None),
            }),
    {
        MainSwitchBuilder {
            state: false,
            snd_turn_on_start: Sound::new_simple(None),
            snd_turn_on: Sound::new_simple(None),
            snd_turn_off: Sound::new_simple(None),
            snd_trigger: Sound::new_simple(None),
        }
    }

    /// One cycle: the lever has just been pushed past the threshold
    /// (`closed`) or pulled back (`opened`), the command kept its kind but
    /// changed its delay since the last cycle (`delay_changed`, as the host
    /// that keeps the delays judges), and the command's delay has elapsed or
    /// not. Returns whether the delay timer keeps running and the sound
    /// writes.
    pub fn tick(&mut self, closed: bool, opened: bool, delay_changed: bool, delay_elapsed: bool) -> (res: (bool, Vec<VarWrite>))
        ensures
            res.0 == command_pending(old(self)@.target, after_lever(old(self)@.state, closed, opened)),
            writes_view(res.1@) == old(self)@.tick_writes(closed, opened, delay_changed, delay_elapsed),
            final(self)@ == (MainSwitchModel {
                state: old(self)@.next_state(closed, opened, delay_elapsed),
                target_last: old(self)@.target,
                ..old(self)@
            }),
    {
        let ghost m = self@;
        let mut out: Vec<VarWrite> = Vec::new();
        if closed && !self.state {
            push_write(&mut out, self.snd_turn_on.start());
            self.state = true;
        }
        assert(writes_view(out@) =~= start_if(closed && !m.state, m.snd_turn_on));
        if opened {
            push_write(&mut out, self.snd_turn_off.start());
            self.state = false;
        }
        assert(writes_view(out@) =~= start_if(closed && !m.state, m.snd_turn_on) + start_if(opened, m.snd_turn_off));
        let ghost lever_part = writes_view(out@);
        let s1 = self.state;
        assert(s1 == after_lever(m.state, closed, opened));
        let mut timer_runs = false;
        match self.target {
            SwitchingTarget::TurnOn => {
                if !s1 {
                    timer_runs = true;
                    if self.target_last != self.target || delay_changed {
                        push_write(&mut out, self.snd_turn_on_start.start());
                    }
                    if delay_elapsed && self.switching_allowed {
                        push_write(&mut out, self.snd_turn_on.start());
                        self.state = true;
                    }
                    assert(writes_view(out@) =~= lever_part + (start_if(m.target_last != m.target || delay_changed, m.snd_turn_on_start)
                        + start_if(delay_elapsed && m.switching_allowed, m.snd_turn_on)));
                } else {
                    assert(writes_view(out@) =~= lever_part + Seq::<(Seq<char>, VarValue)>::empty());
                }
            },
            SwitchingTarget::TurnOff => {
                if s1 {
                    timer_runs = true;
                    if delay_elapsed && self.switching_allowed {
                        push_write(&mut out, self.snd_turn_off.start());
                        self.state = false;
                    }
                    assert(writes_view(out@) =~= lever_part + start_if(delay_elapsed && m.switching_allowed, m.snd_turn_off));
                } else {
                    assert(writes_view(out@) =~= lever_part + Seq::<(Seq<char>, VarValue)>::empty());
                }
            },
            SwitchingTarget::Neutral => {
                assert(writes_view(out@) =~= lever_part + Seq::<(Seq<char>, VarValue)>::empty());
            },
        }
        self.target_last = self.target;
        (timer_runs, out)
    }

    /// Trips the switch: a closed switch opens with the trip sound and its
    /// command is dropped; an open switch stays as it is.
    pub fn turn_off(&mut self) -> (res: Vec<VarWrite>)
        ensures
            old(self)@.state ==> final(self)@ == (MainSwitchModel {
                state: false,
                target: SwitchingTarget::Neutral,
                target_last: SwitchingTarget::Neutral,
                ..old(self)@
            }),
            old(self)@.state ==> writes_view(res@) == start_of(old(self)@.snd_trigger),
            !old(self)@.state ==> final(self)@ == old(self)@ && res@.len() == 0,
    {
        let mut out: Vec<VarWrite> = Vec::new();
        if self.state {
            push_write(&mut out, self.snd_trigger.start());
            self.state = false;
            self.target = SwitchingTarget::Neutral;
            self.target_last = SwitchingTarget::Neutral;
            assert(writes_view(out@) =~= start_of(self@.snd_trigger));
        }
        out
    }
}

/// Where remote switching is not allowed, a command never moves the
/// switch: only the lever does.
pub proof fn lemma_blocked_command_never_switches(m: MainSwitchModel, closed: bool, opened: bool, delay_elapsed: bool)
    requires
        !m.switching_allowed,
    ensures
        m.next_state(closed, opened, delay_elapsed) == after_lever(m.state, closed, opened),
{
}

/// Once a pending command has taken effect, it is no longer pending: the
/// switch rests in the commanded state and the timer stops.
pub proof fn lemma_command_reached_stops_timer(m: MainSwitchModel, delay_elapsed: bool)
    requires
        m.switching_allowed,
        delay_elapsed,
        m.target != SwitchingTarget::Neutral,
    ensures
        !command_pending(m.target, m.next_state(false, false, delay_elapsed)),
{
}

/// Without a command and without the lever, the switch and its sounds stay
/// quiet.
pub proof fn lemma_idle_switch_is_still(m: MainSwitchModel, delay_elapsed: bool)
    requires
        m.target == SwitchingTarget::Neutral,
    ensures
        m.next_state(false, false, delay_elapsed) == m.state,
        m.tick_writes(false, false, false, delay_elapsed) == Seq::<(Seq<char>, VarValue)>::empty(),
{
    assert(m.tick_writes(false, false, false, delay_elapsed) =~= Seq::<(Seq<char>, VarValue)>::empty());
}

/// A remote command never moves the switch before its delay has elapsed:
/// only the lever does. In such a cycle without the lever, the switch stays
/// as it is and neither the closing nor the opening sound is written; only
/// the start-up sound of a newly given close command may sound.
pub proof fn lemma_command_waits_for_delay(m: MainSwitchModel, closed: bool, opened: bool, delay_changed: bool)
    ensures
        m.next_state(closed, opened, false) == after_lever(m.state, closed, opened),
        m.next_state(false, false, false) == m.state,
        m.tick_writes(false, false, delay_changed, false) == (if m.target == SwitchingTarget::TurnOn && !m.state {
            start_if(m.target_last != m.target || delay_changed, m.snd_turn_on_start)
        } else {
            Seq::<(Seq<char>, VarValue)>::empty()
        }),
{
    assert(m.tick_writes(false, false, delay_changed, false) =~= (if m.target == SwitchingTarget::TurnOn && !m.state {
        start_if(m.target_last != m.target || delay_changed, m.snd_turn_on_start)
    } else {
        Seq::<(Seq<char>, VarValue)>::empty()
    }));
}

/// The switch never changes silently: when a cycle closes an open switch
/// the closing sound is started, and when it opens a closed one the opening
/// sound is started.
pub proof fn lemma_switching_is_heard(m: MainSwitchModel, closed: bool, opened: bool, delay_changed: bool, delay_elapsed: bool)
    ensures
        (!m.state && m.next_state(closed, opened, delay_elapsed) && m.snd_turn_on.name is Some) ==> exists|i: int|
            0 <= i < m.tick_writes(closed, opened, delay_changed, delay_elapsed).len()
            && #[trigger] m.tick_writes(closed, opened, delay_changed, delay_elapsed)[i] == (m.snd_turn_on.name.unwrap(), VarValue::Bool(true)),
        (m.state && !m.next_state(closed, opened, delay_elapsed) && m.snd_turn_off.name is Some) ==> exists|i: int|
            0 <= i < m.tick_writes(closed, opened, delay_changed, delay_elapsed).len()
            && #[trigger] m.tick_writes(closed, opened, delay_changed, delay_elapsed)[i] == (m.snd_turn_off.name.unwrap(), VarValue::Bool(true)),
{
    let w = m.tick_writes(closed, opened, delay_changed, delay_elapsed);
    let s1 = after_lever(m.state, closed, opened);
    let fires = delay_elapsed && m.switching_allowed;
    let a = start_if(closed && !m.state, m.snd_turn_on);
    let b = start_if(opened, m.snd_turn_off);
    let c = if m.target == SwitchingTarget::TurnOn && !s1 {
        start_if(m.target_last != m.target || delay_changed, m.snd_turn_on_start) + start_if(fires, m.snd_turn_on)
    } else if m.target == SwitchingTarget::TurnOff && s1 {
        start_if(fires, m.snd_turn_off)
    } else {
        Seq::empty()
    };
    assert(w =~= a + b + c);
    if !m.state && m.next_state(closed, opened, delay_elapsed) && m.snd_turn_on.name is Some {
        if closed {
            assert(w[0] == (m.snd_turn_on.name.unwrap(), VarValue::Bool(true)));
        } else {
            let c1 = start_if(m.target_last != m.target || delay_changed, m.snd_turn_on_start);
            let k: int = (a.len() + b.len() + c1.len()) as int;
            assert(w[k] == (m.snd_turn_on.name.unwrap(), VarValue::Bool(true)));
        }
    }
    if m.state && !m.next_state(closed, opened, delay_elapsed) && m.snd_turn_off.name is Some {
        if opened {
            assert(w[a.len() as int] == (m.snd_turn_off.name.unwrap(), VarValue::Bool(true)));
        } else {
            let k: int = (a.len() + b.len()) as int;
            assert(w[k] == (m.snd_turn_off.name.unwrap(), VarValue::Bool(true)));
        }
    }
}

/// The abstract state of the battery main switch.
pub struct BatteryMainSwitchModel {
    pub battery_mainswitch: bool,
    pub battery_mainswitch_last: bool,
    pub snd_battery_on: SoundModel,
    pub snd_battery_off: SoundModel,
}

impl BatteryMainSwitchModel {
    /// The switch after a cycle: a command whose delay has elapsed closes or
    /// opens it, and a battery below its minimum voltage opens it whatever
    /// the command.
    pub open spec fn next_state(self, target: SwitchingTarget, delay_elapsed: bool, under_voltage: bool) -> bool {
        if under_voltage {
            false
        } else if delay_elapsed && target == SwitchingTarget::TurnOn {
            true
        } else if delay_elapsed && target == SwitchingTarget::TurnOff {
            false
        } else {
            self.battery_mainswitch
        }
    }

    /// The sounds of a cycle: the closing or opening sound while a command's
    /// delay has elapsed, then the opening sound on under-voltage.
    pub open spec fn tick_writes(self, target: SwitchingTarget, delay_elapsed: bool, under_voltage: bool) -> Seq<(Seq<char>, VarValue)> {
        start_if(delay_elapsed && target == SwitchingTarget::TurnOn, self.snd_battery_on)
            + start_if(delay_elapsed && target == SwitchingTarget::TurnOff, self.snd_battery_off)
            + start_if(under_voltage, self.snd_battery_off)
    }
}

/// The battery main switch of the low-voltage level. The battery's voltage
/// is real-valued and kept by the host.
#[derive(Debug)]
pub struct BatteryMainSwitch {
    /// Whether the battery is connected.
    pub battery_mainswitch: bool,
    /// Whether it was connected before the last cycle.
    pub battery_mainswitch_last: bool,
    snd_battery_on: Sound,
    snd_battery_off: Sound,
}

impl View for BatteryMainSwitch {
    type V = BatteryMainSwitchModel;

    closed spec fn view(&self) -> BatteryMainSwitchModel {
        BatteryMainSwitchModel {
            battery_mainswitch: self.battery_mainswitch,
            battery_mainswitch_last: self.battery_mainswitch_last,
            snd_battery_on: self.snd_battery_on@,
            snd_battery_off: self.snd_battery_off@,
        }
    }
}

impl BatteryMainSwitch {
    /// A disconnected battery switch without sounds.
    pub fn new() -> (res: Self)
        ensures
            res@ == (BatteryMainSwitchModel {
                battery_mainswitch: false,
                battery_mainswitch_last: false,
                snd_battery_on: simple_sound(None),
                snd_battery_off: simple_sound(None),
            }),
    {
        BatteryMainSwitch {
            battery_mainswitch: false,
            battery_mainswitch_last: false,
            snd_battery_on: Sound::new_simple(None),
            snd_battery_off: Sound::new_simple(None),
        }
    }

    /// Starts connected or disconnected.
    pub fn init(self, state: bool) -> (res: Self)
        ensures
            res@ == (BatteryMainSwitchModel { battery_mainswitch: state, battery_mainswitch_last: state, ..self@ }),
    {
        BatteryMainSwitch { battery_mainswitch: state, battery_mainswitch_last: state, ..self }
    }

    /// The sound when the battery is connected.
    pub fn snd_battery_on(self, name: &str) -> (res: Self)
        ensures
            res@ == (BatteryMainSwitchModel { snd_battery_on: simple_sound(Some(name@)), ..self@ }),
    {
        BatteryMainSwitch { snd_battery_on: Sound::new_simple(Some(name)), ..self }
    }

    /// The sound when the battery is disconnected.
    pub fn snd_battery_off(self, name: &str) -> (res: Self)
        ensures
            res@ == (BatteryMainSwitchModel { snd_battery_off: simple_sound(Some(name@)), ..self@ }),
    {
        BatteryMainSwitch { snd_battery_off: Sound::new_simple(Some(name)), ..self }
    }

    /// One cycle under the battery command: whether its delay has elapsed,
    /// and whether the battery is below its minimum voltage. Returns whether
    /// the delay timer keeps running (while there is a command) and the
    /// sound writes.
    pub fn tick(&mut self, target: SwitchingTarget, delay_elapsed: bool, under_voltage: bool) -> (res: (bool, Vec<VarWrite>))
        ensures
            res.0 == (target != SwitchingTarget::Neutral),
            writes_view(res.1@) == old(self)@.tick_writes(target, delay_elapsed, under_voltage),
            final(self)@ == (BatteryMainSwitchModel {
                battery_mainswitch: old(self)@.next_state(target, delay_elapsed, under_voltage),
                battery_mainswitch_last: old(self)@.battery_mainswitch,
                ..old(self)@
            }),
    {
        let ghost m = self@;
        self.battery_mainswitch_last = self.battery_mainswitch;
        let mut out: Vec<VarWrite> = Vec::new();
        let timer_runs = match target {
            SwitchingTarget::TurnOn => {
                if delay_elapsed {
                    self.battery_mainswitch = true;
                    push_write(&mut out, self.snd_battery_on.start());
                }
                true
            },
            SwitchingTarget::TurnOff => {
                if delay_elapsed {
                    self.battery_mainswitch = false;
                    push_write(&mut out, self.snd_battery_off.start());
                }
                true
            },
            SwitchingTarget::Neutral => false,
        };
        assert(writes_view(out@) =~= start_if(delay_elapsed && target == SwitchingTarget::TurnOn, m.snd_battery_on)
            + start_if(delay_elapsed && target == SwitchingTarget::TurnOff, m.snd_battery_off));
        let ghost before = writes_view(out@);
        if under_voltage {
            self.battery_mainswitch = false;
            push_write(&mut out, self.snd_battery_off.start());
        }
        assert(writes_view(out@) =~= before + start_if(under_voltage, m.snd_battery_off));
        (timer_runs, out)
    }
}

/// A battery below its minimum voltage is always disconnected, whatever the
/// command.
pub proof fn lemma_under_voltage_disconnects(m: BatteryMainSwitchModel, target: SwitchingTarget, delay_elapsed: bool)
    ensures
        !m.next_state(target, delay_elapsed, true),
{
}

/// With enough voltage and no command whose delay has elapsed, the battery
/// stays as it is, silently.
pub proof fn lemma_battery_holds_without_command(m: BatteryMainSwitchModel, target: SwitchingTarget)
    ensures
        m.next_state(target, false, false) == m.battery_mainswitch,
        m.next_state(SwitchingTarget::Neutral, true, false) == m.battery_mainswitch,
        m.tick_writes(target, false, false) == Seq::<(Seq<char>, VarValue)>::empty(),
{
    assert(m.tick_writes(target, false, false) =~= Seq::<(Seq<char>, VarValue)>::empty());
}

} // verus!
