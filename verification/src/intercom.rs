//! The intercom panel of the GT6N: passengers call the driver, who answers.
//!
//! The panel is told which panel currently calls (by id, `0` for none).
//! It lights red while another panel calls, flashes yellow while it waits
//! for the driver, and lights green once the driver answered. The yellow
//! flashing follows a real-valued timer kept by the host.
use vstd::prelude::*;
use crate::host_vars::{VarValue, VarWrite, bool_write, writes_view, opt_write_view, push_write};
use crate::key_event::{ActionKind, ActionSnapshot, KeyEvent, KeyEventModel, fresh_key};
use crate::sound::Sound;
use crate::visible_flag::Visiblility;

verus! {

/// The abstract state of an intercom panel.
pub struct IntercomModel {
    pub id: nat,
    pub active: bool,
    pub active_last: bool,
    pub confirmed: bool,
    pub lm_red: Seq<char>,
    pub lm_green: Seq<char>,
    pub lm_yellow: Seq<char>,
    pub key_activate: KeyEventModel,
    pub snd_talk: Seq<char>,
}

impl IntercomModel {
    /// Whether another panel calls.
    pub open spec fn other(self, current: Option<usize>) -> bool {
        match current {
            Some(c) => c > 0 && c != self.id,
            None => false,
        }
    }

    /// Whether the driver's answer is kept: another calling panel ends it.
    pub open spec fn confirmed_after(self, current: Option<usize>) -> bool {
        match current {
            Some(c) => self.confirmed && c == self.id,
            None => self.confirmed,
        }
    }

    /// Whether this panel calls and waits for the driver.
    pub open spec fn waiting(self, current: Option<usize>) -> bool {
        match current {
            Some(c) => c == self.id && !self.confirmed_after(current),
            None => false,
        }
    }

    /// Whether the panel is active after the tick.
    pub open spec fn active_after(self, current: Option<usize>) -> bool {
        self.waiting(current) || self.confirmed_after(current)
    }

    /// The writes of a tick: the talk sound starts when the panel becomes
    /// active; then the red and green lights are set.
    pub open spec fn tick_writes(self, current: Option<usize>) -> Seq<(Seq<char>, VarValue)> {
        let talk = if !self.active && self.active_after(current) {
            seq![(self.snd_talk, VarValue::Bool(true))]
        } else {
            Seq::empty()
        };
        talk + seq![
            (self.lm_red, VarValue::Bool(self.other(current))),
            (self.lm_green, VarValue::Bool(self.confirmed_after(current))),
        ]
    }
}

/// What a tick of an intercom panel asks of the host.
pub struct IntercomTick {
    /// The writes to perform, in order.
    pub writes: Vec<VarWrite>,
    /// Whether the panel waits for the driver: the host then runs the flash
    /// timer (else resets it) and lights yellow in the second half of each
    /// flash period.
    pub waiting: bool,
}

/// An intercom panel.
#[derive(Debug)]
pub struct IntercomGt6n {
    id: usize,
    active: bool,
    active_last: bool,
    confirmed: bool,
    lm_red: Visiblility,
    lm_green: Visiblility,
    lm_yellow: Visiblility,
    key_activate: KeyEvent,
    snd_talk: Sound,
}

impl View for IntercomGt6n {
    type V = IntercomModel;

    closed spec fn view(&self) -> IntercomModel {
        IntercomModel {
            id: self.id as nat,
            active: self.active,
            active_last: self.active_last,
            confirmed: self.confirmed,
            lm_red: self.lm_red@,
            lm_green: self.lm_green@,
            lm_yellow: self.lm_yellow@,
            key_activate: self.key_activate@,
            snd_talk: self.snd_talk@.name.unwrap(),
        }
    }
}

impl IntercomGt6n {
    /// The panel's invariant: its talk sound has a playback variable.
    pub closed spec fn wf(&self) -> bool {
        self.snd_talk@.name is Some
    }

    /// A panel with the given id, lights, call key and talk sound; idle.
    pub fn new(
        id: usize,
        red_light_name: &str,
        green_light_name: &str,
        yellow_light_name: &str,
        event_name: &str,
        sound_activated_name: &str,
    ) -> (res: Self)
        ensures
            res.wf(),
            res@ == (IntercomModel {
                id: id as nat,
                active: false,
                active_last: false,
                confirmed: false,
                lm_red: red_light_name@,
                lm_green: green_light_name@,
                lm_yellow: yellow_light_name@,
                key_activate: fresh_key(Some(event_name@), None),
                snd_talk: sound_activated_name@,
            }),
    {
        IntercomGt6n {
            id,
            active: false,
            active_last: false,
            confirmed: false,
            lm_red: Visiblility::new(red_light_name),
            lm_green: Visiblility::new(green_light_name),
            lm_yellow: Visiblility::new(yellow_light_name),
            key_activate: KeyEvent::new(Some(event_name), None),
            snd_talk: Sound::new_simple(Some(sound_activated_name)),
        }
    }

    /// One cycle, given the id of the calling panel (`0` for none), where
    /// it is known.
    pub fn tick(&mut self, current_activ: Option<usize>) -> (res: IntercomTick)
        requires
            old(self).wf(),
        ensures
            final(self).wf(),
            res.waiting == old(self)@.waiting(current_activ),
            writes_view(res.writes@) == old(self)@.tick_writes(current_activ),
            final(self)@ == (IntercomModel {
                active_last: old(self)@.active,
                active: old(self)@.active_after(current_activ),
                confirmed: old(self)@.confirmed_after(current_activ),
                ..old(self)@
            }),
    {
        let ghost m0 = self@;
        let mut other = false;
        let mut waiting = false;
        if let Some(curr) = current_activ {
            if curr != self.id {
                self.confirmed = false;
            }
            other = curr > 0 && curr != self.id;
            waiting = curr == self.id && !self.confirmed;
        }
        self.active_last = self.active;
        self.active = waiting || self.confirmed;
        let mut writes: Vec<VarWrite> = Vec::new();
        if !self.active_last && self.active {
            push_write(&mut writes, self.snd_talk.start());
        }
        let ghost w1 = writes@;
        writes.push(self.lm_red.set_visbility(other));
        writes.push(self.lm_green.set_visbility(self.confirmed));
        assert(writes_view(writes@) =~= m0.tick_writes(current_activ));
        IntercomTick { writes, waiting }
    }

    /// The yellow light, which the host sets while the panel waits.
    pub fn yellow_light(&self) -> (res: &Visiblility)
        ensures
            res@ == self@.lm_yellow,
    {
        &self.lm_yellow
    }

    /// Whether the call key has just been pressed and calling is `allowed`.
    pub fn pressed(&mut self, state: &ActionSnapshot, allowed: bool) -> (res: bool)
        ensures
            res == (allowed && ((old(self)@.key_activate.name is Some && state.kind == ActionKind::JustPressed
                && old(self)@.key_activate.matching_cab(*state))
                || (old(self)@.key_activate.injection && !old(self)@.key_activate.injection_last))),
            final(self)@ == (IntercomModel { key_activate: old(self)@.key_activate.after_query(), ..old(self)@ }),
    {
        let just = self.key_activate.is_just_pressed(state);
        just && allowed
    }

    /// The driver answers the panel `current_activ`; this panel takes it
    /// where it is the one.
    pub fn confirm(&mut self, current_activ: Option<usize>)
        ensures
            final(self)@ == (IntercomModel {
                confirmed: old(self)@.confirmed || current_activ == Some(old(self)@.id as usize),
                ..old(self)@
            }),
    {
        if let Some(curr) = current_activ {
            if curr == self.id {
                self.confirmed = true;
            }
        }
    }
}

/// A panel lights red and green never at once: green means the driver
/// answered this panel, red that another panel calls.
pub proof fn lemma_red_and_green_exclusive(m: IntercomModel, current: Option<usize>)
    ensures
        !(m.other(current) && m.confirmed_after(current)),
{
}

/// A panel never waits and is answered at the same time.
pub proof fn lemma_waiting_excludes_answered(m: IntercomModel, current: Option<usize>)
    ensures
        !(m.waiting(current) && m.confirmed_after(current)),
{
}

/// A panel is answered only while it is the calling panel: when another
/// panel, or no panel (`0`), is reported as calling, the panel drops the
/// driver's answer, turns its green light off and is no longer active.
pub proof fn lemma_answer_ends_with_call(m: IntercomModel, c: usize)
    requires
        c != m.id,
    ensures
        !m.confirmed_after(Some(c)),
        !m.active_after(Some(c)),
        !m.waiting(Some(c)),
        m.tick_writes(Some(c)).last() == (m.lm_green, VarValue::Bool(false)),
{
}

/// Whenever a panel is answered after a tick with a known caller, that
/// caller is this panel.
pub proof fn lemma_answered_only_when_calling(m: IntercomModel, c: usize)
    ensures
        m.confirmed_after(Some(c)) ==> c == m.id,
{
}

/// The red lamp shows exactly that another panel calls: for a known caller
/// `c`, red is written on precisely when `c` is a panel (not `0`) other
/// than this one. The talk sound starts exactly when the panel turns
/// active, and a waiting panel is the calling one.
pub proof fn lemma_red_lamp_means_other_caller(m: IntercomModel, c: usize)
    ensures
        m.tick_writes(Some(c))[m.tick_writes(Some(c)).len() - 2] == (m.lm_red, VarValue::Bool(c > 0 && c != m.id)),
        (m.tick_writes(Some(c)).len() == 3) == (!m.active && m.active_after(Some(c))),
        m.waiting(Some(c)) ==> c == m.id,
        m.active_after(Some(c)) ==> c == m.id,
{
}

} // verus!
