//! Circuit breakers of the vehicle's high-voltage circuit ("Wagenautomat"):
//! one that is closed and opened by a remote command, and one that is
//! closed by a hand lever.
//!
//! A breaker `n` has the sounds `snd_wagenautomat_<n>_start` (closing
//! begins), `snd_wagenautomat_<n>_on` and `snd_wagenautomat_<n>_off`. A
//! command's delay timer and the lever's position are real-valued and kept
//! by the host, which hands in their outcome.
use vstd::prelude::*;
use crate::current_collector::{SwitchingTarget, simple_sound};
use crate::host_vars::{VarValue, VarWrite, writes_view, indexed_name_spec, framed_name, push_write};
use crate::key_event::{ActionSnapshot, KeyEvent, KeyEventCab, KeyEventModel, fresh_key};
use crate::main_switch::start_if;
use crate::door_buttons::key_pressed;
use crate::sound::{Sound, SoundModel};

verus! {

/// Whether a breaker is closed.
#[derive(Debug, Clone, Copy, PartialEq, Eq, Structural)]
pub enum SimpleState {
    On,
    Off,
}

/// The name `<prefix><n><suffix>` of a breaker's variable.
pub open spec fn breaker_name(prefix: Seq<char>, id: usize, suffix: Seq<char>) -> Seq<char> {
    indexed_name_spec(prefix, id as nat) + suffix
}

/// The sound of breaker `id` with the given suffix.
pub open spec fn breaker_sound(id: usize, suffix: Seq<char>) -> SoundModel {
    simple_sound(Some(breaker_name("snd_wagenautomat_"@, id, suffix)))
}

/// The sound of breaker `id` with the given suffix.
fn breaker_snd(id: usize, suffix: &str) -> (res: Sound)
    ensures
        res@ == breaker_sound(id, suffix@),
{
    let name = framed_name("snd_wagenautomat_", id, suffix);
    Sound::new_simple(Some(name.as_str()))
}

/// The abstract state of a remote-controlled breaker.
pub struct WagenautomatElectricModel {
    pub id: usize,
    pub state: SimpleState,
    pub target_last: SwitchingTarget,
    pub einlegen_start: SoundModel,
    pub einlegen: SoundModel,
    pub auslegen: SoundModel,
}

impl WagenautomatElectricModel {
    /// The breaker after a cycle: a close command whose delay has elapsed
    /// closes it unless closing is blocked; an open command whose delay has
    /// elapsed opens it.
    pub open spec fn next_state(self, target: SwitchingTarget, inlay_block: bool, delay_elapsed: bool) -> SimpleState {
        if target == SwitchingTarget::TurnOn && delay_elapsed && self.state == SimpleState::Off && !inlay_block {
            SimpleState::On
        } else if target == SwitchingTarget::TurnOff && delay_elapsed && self.state == SimpleState::On {
            SimpleState::Off
        } else {
            self.state
        }
    }

    /// The sounds of a cycle: for a close command, the start sound when the
    /// command has just changed and closing is not blocked, then the closing
    /// sound when the breaker closes; for an open command, the opening sound
    /// when it opens.
    pub open spec fn tick_writes(self, target: SwitchingTarget, inlay_block: bool, delay_changed: bool, delay_elapsed: bool) -> Seq<(Seq<char>, VarValue)> {
        match target {
            SwitchingTarget::TurnOn => start_if((self.target_last != target || delay_changed) && !inlay_block, self.einlegen_start)
                + start_if(delay_elapsed && self.state == SimpleState::Off && !inlay_block, self.einlegen),
            SwitchingTarget::TurnOff => start_if(delay_elapsed && self.state == SimpleState::On, self.auslegen),
            SwitchingTarget::Neutral => Seq::empty(),
        }
    }
}

/// A breaker closed and opened by a remote command.
#[derive(Debug)]
pub struct WagenautomatElectric {
    id: usize,
    state: SimpleState,
    target_last: SwitchingTarget,
    einlegen_start: Sound,
    einlegen: Sound,
    auslegen: Sound,
}

impl View for WagenautomatElectric {
    type V = WagenautomatElectricModel;

    closed spec fn view(&self) -> WagenautomatElectricModel {
        WagenautomatElectricModel {
            id: self.id,
            state: self.state,
            target_last: self.target_last,
            einlegen_start: self.einlegen_start@,
            einlegen: self.einlegen@,
            auslegen: self.auslegen@,
        }
    }
}

impl WagenautomatElectric {
    /// Breaker `id` in the given state, with its sounds and no command.
    pub fn new(id: usize, init_state: SimpleState) -> (res: Self)
        ensures
            res@ == (WagenautomatElectricModel {
                id,
                state: init_state,
                target_last: SwitchingTarget::Neutral,
                einlegen_start: breaker_sound(id, "_start"@),
                einlegen: breaker_sound(id, "_on"@),
                auslegen: breaker_sound(id, "_off"@),
            }),
    {
        Self {
            id,
            state: init_state,
            einlegen_start: breaker_snd(id, "_start"),
            einlegen: breaker_snd(id, "_on"),
            auslegen: breaker_snd(id, "_off"),
            target_last: SwitchingTarget::Neutral,
        }
    }

    /// One cycle under the command: whether closing is blocked, whether the
    /// command kept its kind but changed its delay since the last cycle
    /// (`delay_changed`, as the host that keeps the delays judges), and
    /// whether the command's delay has elapsed. Returns whether the delay
    /// timer keeps running (while there is a command) and the sound writes.
    pub fn tick(&mut self, target: SwitchingTarget, inlay_block: bool, delay_changed: bool, delay_elapsed: bool) -> (res: (bool, Vec<VarWrite>))
        ensures
            res.0 == (target != SwitchingTarget::Neutral),
            writes_view(res.1@) == old(self)@.tick_writes(target, inlay_block, delay_changed, delay_elapsed),
            final(self)@ == (WagenautomatElectricModel {
                state: old(self)@.next_state(target, inlay_block, delay_elapsed),
                target_last: target,
                ..old(self)@
            }),
    {
        let ghost m = self@;
        let mut out: Vec<VarWrite> = Vec::new();
        let timer_runs = match target {
            SwitchingTarget::TurnOn => {
                if (self.target_last != target || delay_changed) && !inlay_block {
                    push_write(&mut out, self.einlegen_start.start());
                }
                if delay_elapsed && self.state == SimpleState::Off && !inlay_block {
                    push_write(&mut out, self.einlegen.start());
                    self.state = SimpleState::On;
                }
                assert(writes_view(out@) =~= m.tick_writes(target, inlay_block, delay_changed, delay_elapsed));
                true
            },
            SwitchingTarget::TurnOff => {
                if delay_elapsed && self.state == SimpleState::On {
                    push_write(&mut out, self.auslegen.start());
                    self.state = SimpleState::Off;
                }
                assert(writes_view(out@) =~= m.tick_writes(target, inlay_block, delay_changed, delay_elapsed));
                true
            },
            SwitchingTarget::Neutral => {
                assert(writes_view(out@) =~= m.tick_writes(target, inlay_block, delay_changed, delay_elapsed));
                false
            },
        };
        self.target_last = target;
        (timer_runs, out)
    }

    /// Opens the breaker at once: a closed breaker opens with its sound, an
    /// open one stays as it is.
    pub fn auslegen(&mut self) -> (res: Vec<VarWrite>)
        ensures
            final(self)@ == (WagenautomatElectricModel { state: SimpleState::Off, ..old(self)@ }),
            writes_view(res@) == start_if(old(self)@.state == SimpleState::On, old(self)@.auslegen),
    {
        let mut out: Vec<VarWrite> = Vec::new();
        if self.state == SimpleState::On {
            push_write(&mut out, self.auslegen.start());
            self.state = SimpleState::Off;
        }
        assert(writes_view(out@) =~= start_if(old(self)@.state == SimpleState::On, old(self)@.auslegen));
        out
    }

    /// Whether the breaker is closed.
    pub fn state(&self) -> (res: SimpleState)
        ensures
            res == self@.state,
    {
        self.state
    }
}

/// The abstract state of a hand-operated breaker.
pub struct WagenautomatManualModel {
    pub id: usize,
    pub state: SimpleState,
    pub key_grab: KeyEventModel,
    pub einlegen_start: SoundModel,
    pub einlegen: SoundModel,
    pub auslegen: SoundModel,
}

impl WagenautomatManualModel {
    /// Whether the breaker closes in this cycle: it is open, and the lever
    /// has just been pushed in or a close command is given.
    pub open spec fn closes(self, lever_closed: bool, remote_target: SwitchingTarget) -> bool {
        (lever_closed || remote_target == SwitchingTarget::TurnOn) && self.state == SimpleState::Off
    }

    /// The sounds of a cycle: the closing sound when the breaker closes, then
    /// the opening sound when the lever has just been pulled out.
    pub open spec fn tick_writes(self, lever_closed: bool, lever_opened: bool, remote_target: SwitchingTarget) -> Seq<(Seq<char>, VarValue)> {
        start_if(self.closes(lever_closed, remote_target), self.einlegen) + start_if(lever_opened, self.auslegen)
    }
}

/// A breaker closed by a hand lever (or a close command) and opened by
/// [`WagenautomatManual::auslegen`].
#[derive(Debug)]
pub struct WagenautomatManual {
    id: usize,
    state: SimpleState,
    key_grab: KeyEvent,
    einlegen_start: Sound,
    einlegen: Sound,
    auslegen: Sound,
}

impl View for WagenautomatManual {
    type V = WagenautomatManualModel;

    closed spec fn view(&self) -> WagenautomatManualModel {
        WagenautomatManualModel {
            id: self.id,
            state: self.state,
            key_grab: self.key_grab@,
            einlegen_start: self.einlegen_start@,
            einlegen: self.einlegen@,
            auslegen: self.auslegen@,
        }
    }
}

impl WagenautomatManual {
    /// Breaker `id` in the given state, with its lever key
    /// `wagenautomat_<n>_grab` in the given cab and its sounds.
    pub fn new(id: usize, cab_side: KeyEventCab, init_state: SimpleState) -> (res: Self)
        ensures
            res@ == (WagenautomatManualModel {
                id,
                state: init_state,
                key_grab: fresh_key(Some(breaker_name("wagenautomat_"@, id, "_grab"@)), Some(cab_side)),
                einlegen_start: breaker_sound(id, "_start"@),
                einlegen: breaker_sound(id, "_on"@),
                auslegen: breaker_sound(id, "_off"@),
            }),
    {
        let key_name = framed_name("wagenautomat_", id, "_grab");
        Self {
            id,
            state: init_state,
            key_grab: KeyEvent::new(Some(key_name.as_str()), Some(cab_side)),
            einlegen_start: breaker_snd(id, "_start"),
            einlegen: breaker_snd(id, "_on"),
            auslegen: breaker_snd(id, "_off"),
        }
    }

    /// The number of the breaker.
    pub fn id(&self) -> (res: usize)
        ensures
            res == self@.id,
    {
        self.id
    }

    /// Whether the player holds the lever, given the state of its key; the
    /// host then moves the lever.
    pub fn grabbed(&mut self, state: &ActionSnapshot) -> (res: bool)
        ensures
            res == key_pressed(old(self)@.key_grab, *state),
            final(self)@ == (WagenautomatManualModel { key_grab: old(self)@.key_grab.after_query(), ..old(self)@ }),
    {
        self.key_grab.is_pressed(state)
    }

    /// One cycle: the lever has just been pushed in (`lever_closed`) or
    /// pulled out (`lever_opened`), under the remote command. Pulling the
    /// lever out only plays the opening sound; the breaker itself opens by
    /// [`Self::auslegen`].
    pub fn tick(&mut self, lever_closed: bool, lever_opened: bool, remote_target: SwitchingTarget) -> (res: Vec<VarWrite>)
        ensures
            writes_view(res@) == old(self)@.tick_writes(lever_closed, lever_opened, remote_target),
            final(self)@ == (if old(self)@.closes(lever_closed, remote_target) {
                WagenautomatManualModel { state: SimpleState::On, ..old(self)@ }
            } else {
                old(self)@
            }),
    {
        let ghost m = self@;
        let mut out: Vec<VarWrite> = Vec::new();
        let remote_on = match remote_target {
            SwitchingTarget::TurnOn => true,
            _ => false,
        };
        if (lever_closed || remote_on) && self.state == SimpleState::Off {
            push_write(&mut out, self.einlegen.start());
            self.state = SimpleState::On;
        }
        if lever_opened {
            push_write(&mut out, self.auslegen.start());
        }
        assert(writes_view(out@) =~= m.tick_writes(lever_closed, lever_opened, remote_target));
        out
    }

    /// Opens the breaker at once: a closed breaker opens with its sound, an
    /// open one stays as it is.
    pub fn auslegen(&mut self) -> (res: Vec<VarWrite>)
        ensures
            final(self)@ == (WagenautomatManualModel { state: SimpleState::Off, ..old(self)@ }),
            writes_view(res@) == start_if(old(self)@.state == SimpleState::On, old(self)@.auslegen),
    {
        let mut out: Vec<VarWrite> = Vec::new();
        if self.state == SimpleState::On {
            push_write(&mut out, self.auslegen.start());
            self.state = SimpleState::Off;
        }
        assert(writes_view(out@) =~= start_if(old(self)@.state == SimpleState::On, old(self)@.auslegen));
        out
    }

    /// Whether the breaker is closed.
    pub fn state(&self) -> (res: SimpleState)
        ensures
            res == self@.state,
    {
        self.state
    }
}

/// While closing is blocked, a remote-controlled breaker never closes.
pub proof fn lemma_blocked_breaker_stays_open(m: WagenautomatElectricModel, target: SwitchingTarget, delay_elapsed: bool)
    requires
        m.state == SimpleState::Off,
    ensures
        m.next_state(target, true, delay_elapsed) == SimpleState::Off,
{
}

/// Opening a breaker twice is opening it once: the second call finds it
/// open and plays nothing.
pub proof fn lemma_auslegen_is_idempotent(m: WagenautomatElectricModel)
    ensures
        ({
            let opened = WagenautomatElectricModel { state: SimpleState::Off, ..m };
            &&& (WagenautomatElectricModel { state: SimpleState::Off, ..opened }) == opened
            &&& start_if(opened.state == SimpleState::On, opened.auslegen) == Seq::<(Seq<char>, VarValue)>::empty()
        }),
{
}

/// A remote command never moves the breaker before its delay has elapsed,
/// and then neither the closing nor the opening sound is written. Once the
/// delay has elapsed, an open command leaves the breaker open and a close
/// command leaves it closed unless closing is blocked.
pub proof fn lemma_breaker_follows_command_after_delay(
    m: WagenautomatElectricModel,
    target: SwitchingTarget,
    inlay_block: bool,
    delay_changed: bool,
)
    ensures
        m.next_state(target, inlay_block, false) == m.state,
        m.tick_writes(target, inlay_block, delay_changed, false) == (if target == SwitchingTarget::TurnOn {
            start_if((m.target_last != target || delay_changed) && !inlay_block, m.einlegen_start)
        } else {
            Seq::<(Seq<char>, VarValue)>::empty()
        }),
        target == SwitchingTarget::TurnOff ==> m.next_state(target, inlay_block, true) == SimpleState::Off,
        target == SwitchingTarget::TurnOn && !inlay_block ==> m.next_state(target, inlay_block, true) == SimpleState::On,
        target == SwitchingTarget::Neutral ==> m.next_state(target, inlay_block, true) == m.state,
{
    assert(m.tick_writes(target, inlay_block, delay_changed, false) =~= (if target == SwitchingTarget::TurnOn {
        start_if((m.target_last != target || delay_changed) && !inlay_block, m.einlegen_start)
    } else {
        Seq::<(Seq<char>, VarValue)>::empty()
    }));
}

} // verus!
