//! A folding window, opened and closed by a key.
//!
//! The window is either shut or fully open: each press of its key folds it
//! the other way and starts the matching sound. Its animation is written by
//! the host.
use vstd::prelude::*;
use crate::host_vars::{VarValue, VarWrite, writes_view, opt_bool_write, push_write};
use crate::key_event::{ActionSnapshot, KeyEvent, KeyEventCab, KeyEventModel, fresh_key};
use crate::hand_coupler::key_just_pressed;
use crate::sound::{Sound, SoundModel};
use crate::current_collector::simple_sound;

verus! {

/// The abstract state of a folding window.
pub struct FoldingWindowModel {
    pub open: bool,
    pub snd_open: SoundModel,
    pub snd_close: SoundModel,
    pub key_toggle: KeyEventModel,
}

impl FoldingWindowModel {
    /// Whether the window folds in this cycle: its key has just been
    /// pressed.
    pub open spec fn folds(self, state: ActionSnapshot) -> bool {
        key_just_pressed(self.key_toggle, state)
    }

    /// The sound of a fold: the opening sound when the window opens, else
    /// the closing sound.
    pub open spec fn fold_writes(self, state: ActionSnapshot) -> Seq<(Seq<char>, VarValue)> {
        if !self.folds(state) {
            Seq::empty()
        } else if !self.open {
            opt_bool_write(self.snd_open.name, true)
        } else {
            opt_bool_write(self.snd_close.name, true)
        }
    }
}

/// What a cycle of a folding window hands back.
pub struct FoldingWindowTick {
    /// The sound writes.
    pub writes: Vec<VarWrite>,
    /// Where the window folded, whether it is now open: the host then sets
    /// its animation to fully open or shut.
    pub folded_to: Option<bool>,
}

/// A folding window.
#[derive(Debug)]
pub struct FoldingWindow {
    open: bool,
    snd_open: Sound,
    snd_close: Sound,
    key_toggle: KeyEvent,
}

impl View for FoldingWindow {
    type V = FoldingWindowModel;

    closed spec fn view(&self) -> FoldingWindowModel {
        FoldingWindowModel {
            open: self.open,
            snd_open: self.snd_open@,
            snd_close: self.snd_close@,
            key_toggle: self.key_toggle@,
        }
    }
}

/// Builder of a [`FoldingWindow`].
#[derive(Debug)]
pub struct FoldingWindowBuilder {
    window: FoldingWindow,
}

impl View for FoldingWindowBuilder {
    type V = FoldingWindowModel;

    closed spec fn view(&self) -> FoldingWindowModel {
        self.window@
    }
}

impl FoldingWindowBuilder {
    /// Sets the sound started when the window opens.
    pub fn snd_open(self, name: &str) -> (res: Self)
        ensures
            res@ == (FoldingWindowModel { snd_open: simple_sound(Some(name@)), ..self@ }),
    {
        let mut b = self;
        b.window.snd_open = Sound::new_simple(Some(name));
        b
    }

    /// Sets the sound started when the window closes.
    pub fn snd_close(self, name: &str) -> (res: Self)
        ensures
            res@ == (FoldingWindowModel { snd_close: simple_sound(Some(name@)), ..self@ }),
    {
        let mut b = self;
        b.window.snd_close = Sound::new_simple(Some(name));
        b
    }

    /// The window.
    pub fn build(self) -> (res: FoldingWindow)
        ensures
            res@ == self@,
    {
        self.window
    }
}

impl FoldingWindow {
    /// A shut window folded by the key event `event_name`, without sounds.
    pub fn builder(event_name: &str, cab_side: Option<KeyEventCab>) -> (res: FoldingWindowBuilder)
        ensures
            res@ == (FoldingWindowModel {
                open: false,
                snd_open: simple_sound(None),
                snd_close: simple_sound(None),
                key_toggle: fresh_key(Some(event_name@), cab_side),
            }),
    {
        FoldingWindowBuilder {
            window: FoldingWindow {
                open: false,
                snd_open: Sound::new_simple(None),
                snd_close: Sound::new_simple(None),
                key_toggle: KeyEvent::new(Some(event_name), cab_side),
            },
        }
    }

    /// One cycle, given the state of the window's key.
    pub fn tick(&mut self, state: &ActionSnapshot) -> (res: FoldingWindowTick)
        ensures
            writes_view(res.writes@) == old(self)@.fold_writes(*state),
            res.folded_to == (if old(self)@.folds(*state) { Some(!old(self)@.open) } else { None::<bool> }),
            final(self)@ == (FoldingWindowModel {
                open: if old(self)@.folds(*state) { !old(self)@.open } else { old(self)@.open },
                key_toggle: old(self)@.key_toggle.after_query(),
                ..old(self)@
            }),
    {
        let mut writes: Vec<VarWrite> = Vec::new();
        let ghost m = self@;
        if self.key_toggle.is_just_pressed(state) {
            self.open = !self.open;
            if self.open {
                push_write(&mut writes, self.snd_open.start());
            } else {
                push_write(&mut writes, self.snd_close.start());
            }
            assert(writes_view(writes@) =~= m.fold_writes(*state));
            FoldingWindowTick { writes, folded_to: Some(self.open) }
        } else {
            assert(writes_view(writes@) =~= m.fold_writes(*state));
            FoldingWindowTick { writes, folded_to: None }
        }
    }

    /// Whether the window is open.
    pub fn is_open(&self) -> (res: bool)
        ensures
            res == self@.open,
    {
        self.open
    }
}

/// A press folds the window the other way and sounds the matching sound:
/// the opening sound when a shut window opens, the closing sound when an
/// open one shuts; without a press nothing sounds.
pub proof fn lemma_fold_sounds_match_direction(m: FoldingWindowModel, state: ActionSnapshot)
    ensures
        !m.folds(state) ==> m.fold_writes(state) == Seq::<(Seq<char>, VarValue)>::empty(),
        m.folds(state) && !m.open ==> m.fold_writes(state) == opt_bool_write(m.snd_open.name, true),
        m.folds(state) && m.open ==> m.fold_writes(state) == opt_bool_write(m.snd_close.name, true),
        m.folds(state) == key_just_pressed(m.key_toggle, state),
{
}

} // verus!
