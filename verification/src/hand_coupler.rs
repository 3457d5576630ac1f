//! The decisions of a hand-operated coupler `n`: uncoupling, the cover flap
//! (`Coupling_<n>_casecap`), the coupler's visibility (`Coupling_<n>_vis`)
//! and the automatic coupling bag (`Coupling_<n>_BagVis`).
//!
//! The coupler's swing, its speed, its lateral offset and the bag's delay
//! timer are real-valued and kept by the host, which hands in their outcome:
//! whether the coupler has just swung back into its case, and whether the bag
//! timer has run out. The host also reads the simulator (mechanical coupling,
//! the coupler state, the flags' current values) and performs the actions
//! returned.
use vstd::prelude::*;
use crate::host_vars::{VarValue, VarWrite, writes_view, bool_write, framed_name, indexed_name_spec};
use crate::key_event::{ActionKind, ActionSnapshot, KeyEvent, KeyEventCab, KeyEventModel, fresh_key};
use crate::mock_enums::CouplingState;

verus! {

/// The name `Coupling_<id><suffix>` of a coupler flag.
pub open spec fn coupler_flag(id: usize, suffix: Seq<char>) -> Seq<char> {
    indexed_name_spec("Coupling_"@, id as nat) + suffix
}

/// Whether a key counts as just pressed in this frame.
pub open spec fn key_just_pressed(k: KeyEventModel, state: ActionSnapshot) -> bool {
    (k.name is Some && state.kind == ActionKind::JustPressed && k.matching_cab(state))
        || (k.injection && !k.injection_last)
}

/// The abstract state of a hand coupler's decisions.
pub struct HandCouplerModel {
    pub id: usize,
    pub key_klap: KeyEventModel,
    pub key_grab: KeyEventModel,
    pub key_bag: KeyEventModel,
    pub cab_vis: Seq<char>,
    pub bag_vis: Seq<char>,
    pub coupler_vis: Seq<char>,
    pub bag_setted: bool,
    pub coupled_state_last: bool,
}

/// What the simulator shows in a cycle, as read by the host.
#[derive(Debug, Clone, Copy, PartialEq, Eq)]
pub struct HandCouplerInputs {
    /// The uncoupler button is pressed.
    pub uncoupler_pressed: bool,
    /// The coupler state before the cycle.
    pub coupling: CouplingState,
    /// The coupler is mechanically coupled (read after any uncoupling).
    pub coupled: bool,
    /// The coupler has just swung back into its case.
    pub reached_closed: bool,
    /// The cover flap's flag as read before the cycle.
    pub cab_visible: bool,
    /// The bag's flag as read before the cycle.
    pub bag_visible: bool,
    /// The coupled vehicle reports its bag as set.
    pub remote_bag_state: bool,
    /// The bag timer, advanced by this cycle, has run out.
    pub bag_timer_expired: bool,
}

/// The actions of a cycle, for the host to perform.
pub struct HandCouplerActions {
    /// The coupler state to set, where it changes.
    pub new_coupling_state: Option<CouplingState>,
    /// The flag writes, in order.
    pub writes: Vec<VarWrite>,
    /// The cover is closed: the host stops the coupler in its case.
    pub cab_closed: bool,
    /// The bag timer keeps running.
    pub run_bag_timer: bool,
    /// The bag timer restarts, with a random delay, because the vehicle has
    /// just been coupled.
    pub restart_bag_timer: bool,
    /// The bag is shown now: the host tells the coupled vehicle.
    pub send_bag: bool,
}

impl HandCouplerModel {
    /// The cover flap after the cycle: opened by the flap key, closed when
    /// the coupler swings back into its case.
    pub open spec fn cab_after(self, klap: ActionSnapshot, i: HandCouplerInputs) -> bool {
        if i.reached_closed {
            true
        } else if key_just_pressed(self.key_klap, klap) {
            false
        } else {
            i.cab_visible
        }
    }

    /// The bag is hidden by its key, and whenever the vehicle is not coupled.
    pub open spec fn hide_bag(self, bag: ActionSnapshot, i: HandCouplerInputs) -> bool {
        key_just_pressed(self.key_bag, bag) || !i.coupled
    }

    /// Whether the bag counts as set after the cycle: while coupled, once it
    /// is shown or the coupled vehicle reports it; never while uncoupled.
    pub open spec fn bag_setted_after(self, bag: ActionSnapshot, i: HandCouplerInputs) -> bool {
        i.coupled && (self.bag_setted || (i.bag_visible && !self.hide_bag(bag, i)) || i.remote_bag_state)
    }

    /// Whether the bag is shown (and sent) in this cycle: coupled, not set,
    /// its timer run out and no bag reported by the coupled vehicle.
    pub open spec fn shows_bag(self, bag: ActionSnapshot, i: HandCouplerInputs) -> bool {
        i.coupled && !self.bag_setted_after(bag, i) && i.bag_timer_expired && !i.remote_bag_state
    }

    /// The flag writes of a cycle, in order: the flap opened, the flap
    /// closed, the coupler's visibility (hidden behind a closed cover), the
    /// bag hidden, the bag shown.
    pub open spec fn tick_writes(self, klap: ActionSnapshot, bag: ActionSnapshot, i: HandCouplerInputs) -> Seq<(Seq<char>, VarValue)> {
        (if key_just_pressed(self.key_klap, klap) { seq![(self.cab_vis, VarValue::Bool(false))] } else { Seq::empty() })
            + (if i.reached_closed { seq![(self.cab_vis, VarValue::Bool(true))] } else { Seq::empty() })
            + seq![(self.coupler_vis, VarValue::Bool(!self.cab_after(klap, i)))]
            + (if self.hide_bag(bag, i) { seq![(self.bag_vis, VarValue::Bool(false))] } else { Seq::empty() })
            + (if self.shows_bag(bag, i) { seq![(self.bag_vis, VarValue::Bool(true))] } else { Seq::empty() })
    }
}

/// A hand-operated coupler's decisions.
#[derive(Debug)]
pub struct HandCoupler {
    id: usize,
    key_klap: KeyEvent,
    key_grab: KeyEvent,
    key_bag: KeyEvent,
    cab_vis: String,
    bag_vis: String,
    coupler_vis: String,
    bag_setted: bool,
    coupled_state_last: bool,
}

impl View for HandCoupler {
    type V = HandCouplerModel;

    closed spec fn view(&self) -> HandCouplerModel {
        HandCouplerModel {
            id: self.id,
            key_klap: self.key_klap@,
            key_grab: self.key_grab@,
            key_bag: self.key_bag@,
            cab_vis: self.cab_vis@,
            bag_vis: self.bag_vis@,
            coupler_vis: self.coupler_vis@,
            bag_setted: self.bag_setted,
            coupled_state_last: self.coupled_state_last,
        }
    }
}

/// A key that is just pressed in this frame.
fn just_pressed(key: &mut KeyEvent, state: &ActionSnapshot) -> (res: bool)
    ensures
        res == key_just_pressed(old(key)@, *state),
        final(key)@ == old(key)@.after_query(),
{
    key.is_just_pressed(state)
}

impl HandCoupler {
    /// Coupler `id` with its keys (`Kupplung_CabToggle`, `Kupplung_Grab`,
    /// `Kupplung_Bag`) in the given cab. Where it starts `coupled` the
    /// coupler is shown, else the cover; the write that does so is returned.
    pub fn new(id: usize, cab_side: Option<KeyEventCab>, coupled: bool) -> (res: (Self, VarWrite))
        ensures
            res.0@ == (HandCouplerModel {
                id,
                key_klap: fresh_key(Some("Kupplung_CabToggle"@), cab_side),
                key_grab: fresh_key(Some("Kupplung_Grab"@), cab_side),
                key_bag: fresh_key(Some("Kupplung_Bag"@), cab_side),
                cab_vis: coupler_flag(id, "_casecap"@),
                bag_vis: coupler_flag(id, "_BagVis"@),
                coupler_vis: coupler_flag(id, "_vis"@),
                bag_setted: false,
                coupled_state_last: false,
            }),
            res.1.name@ == (if coupled { coupler_flag(id, "_vis"@) } else { coupler_flag(id, "_casecap"@) }),
            res.1.value == VarValue::Bool(true),
    {
        let s = HandCoupler {
            id,
            key_klap: KeyEvent::new(Some("Kupplung_CabToggle"), cab_side),
            key_grab: KeyEvent::new(Some("Kupplung_Grab"), cab_side),
            key_bag: KeyEvent::new(Some("Kupplung_Bag"), cab_side),
            cab_vis: framed_name("Coupling_", id, "_casecap"),
            bag_vis: framed_name("Coupling_", id, "_BagVis"),
            coupler_vis: framed_name("Coupling_", id, "_vis"),
            bag_setted: false,
            coupled_state_last: false,
        };
        let w = if coupled { bool_write(s.coupler_vis.clone(), true) } else { bool_write(s.cab_vis.clone(), true) };
        (s, w)
    }

    /// Whether the player holds the coupler, given the state of its grab
    /// key; the host then swings it.
    pub fn grabbed(&mut self, state: &ActionSnapshot) -> (res: bool)
        ensures
            res == ((old(self)@.key_grab.name is Some
                && (state.kind == ActionKind::JustPressed || state.kind == ActionKind::Pressed)
                && old(self)@.key_grab.matching_cab(*state))
                || old(self)@.key_grab.injection),
            final(self)@ == (HandCouplerModel { key_grab: old(self)@.key_grab.after_query(), ..old(self)@ }),
    {
        self.key_grab.is_pressed(state)
    }

    /// The names of the cover, bag and coupler flags, which the host reads.
    pub fn flags(&self) -> (res: (&String, &String, &String))
        ensures
            res.0@ == self@.cab_vis,
            res.1@ == self@.bag_vis,
            res.2@ == self@.coupler_vis,
    {
        (&self.cab_vis, &self.bag_vis, &self.coupler_vis)
    }

    /// One cycle, given the states of the flap and bag keys and what the
    /// simulator shows. A pressed uncoupler deactivates a coupled coupler.
    pub fn step(&mut self, klap: &ActionSnapshot, bag: &ActionSnapshot, i: HandCouplerInputs) -> (res: HandCouplerActions)
        ensures
            res.new_coupling_state == (if i.uncoupler_pressed && i.coupling == CouplingState::Coupled {
                Some(CouplingState::Deactivated)
            } else {
                None
            }),
            writes_view(res.writes@) == old(self)@.tick_writes(*klap, *bag, i),
            res.cab_closed == old(self)@.cab_after(*klap, i),
            res.run_bag_timer == (i.coupled && !old(self)@.bag_setted_after(*bag, i)),
            res.restart_bag_timer == (i.coupled && !old(self)@.coupled_state_last),
            res.send_bag == old(self)@.shows_bag(*bag, i),
            final(self)@ == (HandCouplerModel {
                key_klap: old(self)@.key_klap.after_query(),
                key_bag: old(self)@.key_bag.after_query(),
                bag_setted: old(self)@.bag_setted_after(*bag, i),
                coupled_state_last: old(self)@.coupled_state_last || i.coupled,
                ..old(self)@
            }),
    {
        let ghost m = self@;
        let mut out: Vec<VarWrite> = Vec::new();
        let mut cab = i.cab_visible;
        let flap = just_pressed(&mut self.key_klap, klap);
        if flap {
            out.push(bool_write(self.cab_vis.clone(), false));
            cab = false;
        }
        let new_coupling_state = if i.uncoupler_pressed && i.coupling == CouplingState::Coupled {
            Some(CouplingState::Deactivated)
        } else {
            None
        };
        if i.reached_closed {
            out.push(bool_write(self.cab_vis.clone(), true));
            cab = true;
        }
        out.push(bool_write(self.coupler_vis.clone(), !cab));
        let mut bag_vis = i.bag_visible;
        let bag_key = just_pressed(&mut self.key_bag, bag);
        let hide = bag_key || !i.coupled;
        if hide {
            out.push(bool_write(self.bag_vis.clone(), false));
            bag_vis = false;
        }
        let mut run = false;
        let mut send = false;
        if i.coupled {
            if bag_vis || i.remote_bag_state {
                self.bag_setted = true;
            }
            run = !self.bag_setted;
            if i.bag_timer_expired && !self.bag_setted && !i.remote_bag_state {
                out.push(bool_write(self.bag_vis.clone(), true));
                send = true;
            }
        } else {
            self.bag_setted = false;
        }
        let restart = i.coupled && !self.coupled_state_last;
        if restart {
            self.coupled_state_last = true;
        }
        assert(writes_view(out@) =~= m.tick_writes(*klap, *bag, i));
        HandCouplerActions {
            new_coupling_state,
            writes: out,
            cab_closed: cab,
            run_bag_timer: run,
            restart_bag_timer: restart,
            send_bag: send,
        }
    }
}

/// An uncoupled vehicle never shows the bag and never counts it as set.
pub proof fn lemma_uncoupled_has_no_bag(m: HandCouplerModel, klap: ActionSnapshot, bag: ActionSnapshot, i: HandCouplerInputs)
    requires
        !i.coupled,
    ensures
        !m.bag_setted_after(bag, i),
        !m.shows_bag(bag, i),
{
}

/// Once the bag is set, it is never shown again while the vehicle stays
/// coupled.
pub proof fn lemma_set_bag_is_not_shown_again(m: HandCouplerModel, bag: ActionSnapshot, i: HandCouplerInputs)
    requires
        m.bag_setted,
    ensures
        !m.shows_bag(bag, i),
        i.coupled ==> m.bag_setted_after(bag, i),
{
}

/// Behind a closed cover the coupler is hidden, and shown otherwise.
pub proof fn lemma_cover_hides_coupler(m: HandCouplerModel, klap: ActionSnapshot, bag: ActionSnapshot, i: HandCouplerInputs)
    ensures
        m.tick_writes(klap, bag, i).contains((m.coupler_vis, VarValue::Bool(!m.cab_after(klap, i)))),
{
    let a: Seq<(Seq<char>, VarValue)> = if key_just_pressed(m.key_klap, klap) { seq![(m.cab_vis, VarValue::Bool(false))] } else { Seq::empty() };
    let b: Seq<(Seq<char>, VarValue)> = if i.reached_closed { seq![(m.cab_vis, VarValue::Bool(true))] } else { Seq::empty() };
    let c: Seq<(Seq<char>, VarValue)> = seq![(m.coupler_vis, VarValue::Bool(!m.cab_after(klap, i)))];
    let w = m.tick_writes(klap, bag, i);
    assert(w[(a.len() + b.len()) as int] == c[0]);
}

/// The cover flap is closed when the coupler swings back into its case,
/// opened by the flap key otherwise, and left as it was without either; the
/// bag is shown only on a coupled vehicle whose bag timer has run out and
/// whose partner reports no bag; the bag key never sets the bag itself.
pub proof fn lemma_cover_and_bag_follow_events(m: HandCouplerModel, klap: ActionSnapshot, bag: ActionSnapshot, i: HandCouplerInputs)
    ensures
        i.reached_closed ==> m.cab_after(klap, i),
        !i.reached_closed && key_just_pressed(m.key_klap, klap) ==> !m.cab_after(klap, i),
        !i.reached_closed && !key_just_pressed(m.key_klap, klap) ==> m.cab_after(klap, i) == i.cab_visible,
        m.shows_bag(bag, i) ==> i.coupled && i.bag_timer_expired && !i.remote_bag_state && !m.bag_setted,
        key_just_pressed(m.key_bag, bag) ==> !(m.bag_setted_after(bag, i) && !m.bag_setted && !i.remote_bag_state),
{
}

} // verus!
