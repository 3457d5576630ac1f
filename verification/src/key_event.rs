//! Cockpit input: which driver's cab an input belongs to, and the edge
//! detection of key events.
//!
//! A key event combines the simulator's state of a named action with an
//! injected value that scripts can set themselves. The simulator's state is
//! read by the host and handed in as an [`ActionSnapshot`].
use vstd::prelude::*;

verus! {

/// The driver's cab of a two-way vehicle: cab A (index 0) or cab B (index 1).
#[derive(Debug, Clone, Copy, PartialEq, Eq, Hash, Structural)]
pub enum KeyEventCab {
    ACab,
    BCab,
}

/// The state of an action in the simulator.
#[derive(Debug, Clone, Copy, PartialEq, Eq, Structural)]
pub enum ActionKind {
    /// The action is not being performed.
    Inactive,
    /// The action has just been pressed.
    JustPressed,
    /// The action is held.
    Pressed,
    /// The action has just been released.
    JustReleased,
}

impl ActionKind {
    /// Whether the action has just been pressed.
    pub fn is_just_pressed(self) -> (res: bool)
        ensures
            res == (self == ActionKind::JustPressed),
    {
        match self {
            ActionKind::JustPressed => true,
            _ => false,
        }
    }

    /// Whether the action is pressed (just now or held).
    pub fn is_pressed(self) -> (res: bool)
        ensures
            res == (self == ActionKind::JustPressed || self == ActionKind::Pressed),
    {
        match self {
            ActionKind::JustPressed | ActionKind::Pressed => true,
            _ => false,
        }
    }

    /// Whether the action has just been released.
    pub fn is_just_released(self) -> (res: bool)
        ensures
            res == (self == ActionKind::JustReleased),
    {
        match self {
            ActionKind::JustReleased => true,
            _ => false,
        }
    }

    /// Whether the action is released (just now or not performed).
    pub fn is_released(self) -> (res: bool)
        ensures
            res == (self == ActionKind::JustReleased || self == ActionKind::Inactive),
    {
        match self {
            ActionKind::JustReleased | ActionKind::Inactive => true,
            _ => false,
        }
    }
}

/// The simulator's state of one action in the current frame: its kind and
/// the index of the cab it was performed in, if any.
#[derive(Debug, Clone, Copy, PartialEq, Eq)]
pub struct ActionSnapshot {
    pub kind: ActionKind,
    pub cockpit_index: Option<u8>,
}

/// The abstract state of a key event.
pub struct KeyEventModel {
    pub name: Option<Seq<char>>,
    pub cab_side: Option<KeyEventCab>,
    pub injection: bool,
    pub injection_last: bool,
}

impl KeyEventModel {
    /// Whether the simulator's action counts for this key: a key without a
    /// cab takes every action, a key of a cab only actions performed in that
    /// cab, and a key without an action name takes none.
    pub open spec fn matching_cab(self, state: ActionSnapshot) -> bool {
        match (self.cab_side, self.name) {
            (Some(cab), Some(_)) => match state.cockpit_index {
                Some(i) => (cab == KeyEventCab::ACab && i == 0) || (cab == KeyEventCab::BCab && i == 1),
                None => false,
            },
            (_, Some(_)) => true,
            (_, None) => false,
        }
    }

    /// The key after a query: it remembers the injected value.
    pub open spec fn after_query(self) -> KeyEventModel {
        KeyEventModel { injection_last: self.injection, ..self }
    }
}

/// A key that has seen no query and has nothing injected.
pub open spec fn fresh_key(name: Option<Seq<char>>, cab_side: Option<KeyEventCab>) -> KeyEventModel {
    KeyEventModel { name, cab_side, injection: false, injection_last: false }
}

/// A key event: a named simulator action, optionally bound to a cab, plus a
/// value that scripts can inject.
#[derive(Debug)]
pub struct KeyEvent {
    name: Option<String>,
    cab_side: Option<KeyEventCab>,
    pub injection: bool,
    injection_last: bool,
}

/// The model of an optional name.
pub open spec fn opt_name_view(name: Option<String>) -> Option<Seq<char>> {
    match name {
        Some(s) => Some(s@),
        None => None,
    }
}

/// The model of an optional borrowed name.
pub open spec fn opt_str_view(name: Option<&str>) -> Option<Seq<char>> {
    match name {
        Some(s) => Some(s@),
        None => None,
    }
}

impl View for KeyEvent {
    type V = KeyEventModel;

    closed spec fn view(&self) -> KeyEventModel {
        KeyEventModel {
            name: opt_name_view(self.name),
            cab_side: self.cab_side,
            injection: self.injection,
            injection_last: self.injection_last,
        }
    }
}

/// Copies an optional borrowed name into an owned one.
pub fn owned_name(name: Option<&str>) -> (res: Option<String>)
    ensures
        opt_name_view(res) == opt_str_view(name),
{
    match name {
        Some(s) => Some(String::from_str(s)),
        None => None,
    }
}

impl KeyEvent {
    /// A key for the named action, bound to a cab or to none, with nothing
    /// injected.
    pub fn new(name: Option<&str>, cab_side: Option<KeyEventCab>) -> (res: Self)
        ensures
            res@ == fresh_key(opt_str_view(name), cab_side),
    {
        KeyEvent { name: owned_name(name), cab_side, injection: false, injection_last: false }
    }

    /// Injects a press (`true`) or withdraws it (`false`).
    pub fn set_injection(&mut self, value: bool)
        ensures
            final(self)@ == (KeyEventModel { injection: value, ..old(self)@ }),
    {
        self.injection = value;
    }

    /// The name of the simulator action, whose state the host reads.
    pub fn name(&self) -> (res: &Option<String>)
        ensures
            opt_name_view(*res) == self@.name,
    {
        &self.name
    }

    /// Whether the simulator's action counts for this key.
    pub fn matching_cab(&self, state: &ActionSnapshot) -> (res: bool)
        ensures
            res == self@.matching_cab(*state),
    {
        match (self.cab_side, &self.name) {
            (Some(cab), Some(_)) => match state.cockpit_index {
                Some(i) => (cab == KeyEventCab::ACab && i == 0) || (cab == KeyEventCab::BCab && i == 1),
                None => false,
            },
            (_, Some(_)) => true,
            (_, None) => false,
        }
    }

    /// Whether the key has just been pressed: the action was just pressed in
    /// a matching cab, or the injected value has just turned on.
    pub fn is_just_pressed(&mut self, state: &ActionSnapshot) -> (res: bool)
        ensures
            res == ((old(self)@.name is Some && state.kind == ActionKind::JustPressed && old(self)@.matching_cab(*state))
                || (old(self)@.injection && !old(self)@.injection_last)),
            final(self)@ == old(self)@.after_query(),
    {
        let action = match &self.name {
            Some(_) => state.kind.is_just_pressed() && self.matching_cab(state),
            None => false,
        };
        let result = action || (self.injection && !self.injection_last);
        self.injection_last = self.injection;
        result
    }

    /// Whether the key has just been released: the action was just released
    /// in a matching cab, or the injected value has just turned off.
    pub fn is_just_released(&mut self, state: &ActionSnapshot) -> (res: bool)
        ensures
            res == ((old(self)@.name is Some && state.kind == ActionKind::JustReleased && old(self)@.matching_cab(*state))
                || (!old(self)@.injection && old(self)@.injection_last)),
            final(self)@ == old(self)@.after_query(),
    {
        let action = match &self.name {
            Some(_) => state.kind.is_just_released() && self.matching_cab(state),
            None => false,
        };
        let result = action || (!self.injection && self.injection_last);
        self.injection_last = self.injection;
        result
    }

    /// Whether the key is pressed: the action is pressed in a matching cab,
    /// or a value is injected.
    pub fn is_pressed(&mut self, state: &ActionSnapshot) -> (res: bool)
        ensures
            res == ((old(self)@.name is Some
                && (state.kind == ActionKind::JustPressed || state.kind == ActionKind::Pressed)
                && old(self)@.matching_cab(*state))
                || old(self)@.injection),
            final(self)@ == old(self)@.after_query(),
    {
        let action = match &self.name {
            Some(_) => state.kind.is_pressed() && self.matching_cab(state),
            None => false,
        };
        let result = action || self.injection;
        self.injection_last = self.injection;
        result
    }

    /// Whether the key is released: the action is released in a matching cab
    /// and no value is injected.
    pub fn is_released(&mut self, state: &ActionSnapshot) -> (res: bool)
        ensures
            res == (old(self)@.name is Some
                && (state.kind == ActionKind::JustReleased || state.kind == ActionKind::Inactive)
                && old(self)@.matching_cab(*state)
                && !old(self)@.injection),
            final(self)@ == old(self)@.after_query(),
    {
        let action = match &self.name {
            Some(_) => state.kind.is_released() && self.matching_cab(state),
            None => false,
        };
        let result = action && !self.injection;
        self.injection_last = self.injection;
        result
    }
}

/// An injected press is reported as "just pressed" exactly once: the next
/// query, with the value still injected, no longer reports it (when the
/// simulator's action does not count).
pub proof fn lemma_injected_press_is_an_edge(k: KeyEventModel, state: ActionSnapshot)
    requires
        k.injection,
        !(k.name is Some && state.kind == ActionKind::JustPressed && k.matching_cab(state)),
    ensures
        !((k.after_query().name is Some && state.kind == ActionKind::JustPressed && k.after_query().matching_cab(state))
            || (k.after_query().injection && !k.after_query().injection_last)),
{
}

/// A key bound to one cab never takes an action performed in the other cab.
pub proof fn lemma_other_cab_is_ignored(k: KeyEventModel, state: ActionSnapshot)
    requires
        k.cab_side == Some(KeyEventCab::ACab) && state.cockpit_index == Some(1u8)
            || k.cab_side == Some(KeyEventCab::BCab) && state.cockpit_index == Some(0u8),
    ensures
        !k.matching_cab(state),
{
}

/// Which actions a key takes: a key without a cab takes the action from
/// any cockpit; a key of cab A only from cockpit 0 and one of cab B only
/// from cockpit 1; a key of a cab takes no action of unknown cockpit; a key
/// without an action name takes none.
pub proof fn lemma_key_takes_actions_of_its_cab(k: KeyEventModel, state: ActionSnapshot)
    ensures
        k.name is Some && k.cab_side is None ==> k.matching_cab(state),
        k.name is Some && k.cab_side == Some(KeyEventCab::ACab) && state.cockpit_index == Some(0u8) ==> k.matching_cab(state),
        k.name is Some && k.cab_side == Some(KeyEventCab::BCab) && state.cockpit_index == Some(1u8) ==> k.matching_cab(state),
        k.cab_side is Some && state.cockpit_index is None ==> !k.matching_cab(state),
        k.name is None ==> !k.matching_cab(state),
{
}

} // verus!
