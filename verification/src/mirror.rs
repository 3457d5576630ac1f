//! The decisions of an outside mirror: its folding arm and the electric
//! adjustment of the mirror glass.
//!
//! Electric functions only work with enough voltage (above 0.25 of the
//! nominal voltage); the host hands in whether there is. The arm's and the
//! glass's positions are real-valued and kept by the host, which hands in
//! whether the motion of this cycle reaches its end, and performs the motion
//! the library decides on.
use vstd::prelude::*;
use crate::current_collector::simple_sound;
use crate::host_vars::{VarValue, VarWrite, writes_view, opt_bool_write, push_write};
use crate::key_event::{ActionKind, ActionSnapshot, KeyEvent, KeyEventCab, KeyEventModel, fresh_key};
use crate::main_switch::start_if;
use crate::sound::{Sound, SoundModel};

verus! {

/// The directions in which the mirror glass is moved electrically.
#[derive(Debug, Default, Clone, Copy, PartialEq, Eq)]
pub struct FourDirections {
    pub up: bool,
    pub down: bool,
    pub left: bool,
    pub right: bool,
}

/// Whether exactly one direction is requested.
pub open spec fn one_direction(d: FourDirections) -> bool {
    (if d.up { 1int } else { 0 }) + (if d.down { 1int } else { 0 }) + (if d.left { 1int } else { 0 })
        + (if d.right { 1int } else { 0 }) == 1
}

impl FourDirections {
    /// Whether exactly one direction is requested.
    pub fn is_one(&self) -> (res: bool)
        ensures
            res == one_direction(*self),
    {
        let n: u8 = (if self.up { 1u8 } else { 0 }) + (if self.down { 1u8 } else { 0 })
            + (if self.left { 1u8 } else { 0 }) + (if self.right { 1u8 } else { 0 });
        n == 1
    }
}

/// A direction in which the glass moves.
#[derive(Debug, Clone, Copy, PartialEq, Eq, Structural)]
pub enum MirrorDirection {
    Up,
    Down,
    Left,
    Right,
}

/// The direction the glass moves in: up before down before left before
/// right; none where nothing is requested.
pub open spec fn glass_direction(d: FourDirections) -> Option<MirrorDirection> {
    if d.up {
        Some(MirrorDirection::Up)
    } else if d.down {
        Some(MirrorDirection::Down)
    } else if d.left {
        Some(MirrorDirection::Left)
    } else if d.right {
        Some(MirrorDirection::Right)
    } else {
        None
    }
}

/// The abstract state of an outside mirror's decisions.
pub struct OutsideMirrorModel {
    pub cab_side: Option<KeyEventCab>,
    pub key_arm: KeyEventModel,
    pub key_grab: KeyEventModel,
    pub arm_state: bool,
    pub arm_target: bool,
    pub arm_target_last: bool,
    pub mirror_target: FourDirections,
    pub snd_open: SoundModel,
    pub snd_close: SoundModel,
    pub snd_move: SoundModel,
    pub snd_move_end: SoundModel,
}

impl OutsideMirrorModel {
    /// Whether the arm motor runs: with voltage, while the arm is not in
    /// its target state.
    pub open spec fn arm_runs(self, powered: bool) -> bool {
        powered && self.arm_target != self.arm_state
    }

    /// The sounds of a cycle: the arm's opening or closing sound when its
    /// motor starts towards a new target, the end sound when the glass
    /// reaches the end of its travel, then the motion sound, playing while
    /// exactly one direction is requested and there is voltage.
    pub open spec fn tick_writes(self, powered: bool, glass_at_end: bool) -> Seq<(Seq<char>, VarValue)> {
        start_if(self.arm_runs(powered) && !self.arm_target && self.arm_target_last, self.snd_close)
            + start_if(self.arm_runs(powered) && self.arm_target && !self.arm_target_last, self.snd_open)
            + start_if(powered && glass_direction(self.mirror_target) is Some && glass_at_end, self.snd_move_end)
            + opt_bool_write(self.snd_move.name, one_direction(self.mirror_target) && powered)
    }
}

/// The outcome of a mirror's cycle.
pub struct MirrorTick {
    /// Where the arm motor runs: `true` opening, `false` closing.
    pub arm_motion: Option<bool>,
    /// Where the glass moves electrically, the direction.
    pub glass_motion: Option<MirrorDirection>,
    /// The sound writes, in order.
    pub writes: Vec<VarWrite>,
}

/// A builder of an outside mirror.
pub struct OutsideMirrorBuilder {
    mirror: OutsideMirror,
}

impl View for OutsideMirrorBuilder {
    type V = OutsideMirrorModel;

    closed spec fn view(&self) -> OutsideMirrorModel {
        self.mirror@
    }
}

impl OutsideMirrorBuilder {
    /// The key that moves the arm by hand.
    pub fn keyevent_arm(self, name: &str) -> (res: Self)
        ensures
            res@ == (OutsideMirrorModel { key_arm: fresh_key(Some(name@), self@.cab_side), ..self@ }),
    {
        let mut b = self;
        b.mirror.key_arm = KeyEvent::new(Some(name), b.mirror.cab_side);
        b
    }

    /// The key that moves the glass by hand.
    pub fn keyevent_mirror(self, name: &str) -> (res: Self)
        ensures
            res@ == (OutsideMirrorModel { key_grab: fresh_key(Some(name@), self@.cab_side), ..self@ }),
    {
        let mut b = self;
        b.mirror.key_grab = KeyEvent::new(Some(name), b.mirror.cab_side);
        b
    }

    /// The sound when the arm opens.
    pub fn snd_open(self, name: &str) -> (res: Self)
        ensures
            res@ == (OutsideMirrorModel { snd_open: simple_sound(Some(name@)), ..self@ }),
    {
        let mut b = self;
        b.mirror.snd_open = Sound::new_simple(Some(name));
        b
    }

    /// The sound when the arm closes.
    pub fn snd_close(self, name: &str) -> (res: Self)
        ensures
            res@ == (OutsideMirrorModel { snd_close: simple_sound(Some(name@)), ..self@ }),
    {
        let mut b = self;
        b.mirror.snd_close = Sound::new_simple(Some(name));
        b
    }

    /// The sound while the glass moves.
    pub fn snd_move(self, name: &str) -> (res: Self)
        ensures
            res@ == (OutsideMirrorModel { snd_move: simple_sound(Some(name@)), ..self@ }),
    {
        let mut b = self;
        b.mirror.snd_move = Sound::new_simple(Some(name));
        b
    }

    /// The sound when the glass reaches the end of its travel.
    pub fn snd_move_end(self, name: &str) -> (res: Self)
        ensures
            res@ == (OutsideMirrorModel { snd_move_end: simple_sound(Some(name@)), ..self@ }),
    {
        let mut b = self;
        b.mirror.snd_move_end = Sound::new_simple(Some(name));
        b
    }

    /// Starts with the arm open (`true`) or folded, at rest.
    pub fn init_arm(self, target: bool) -> (res: Self)
        ensures
            res@ == (OutsideMirrorModel { arm_state: target, arm_target: target, arm_target_last: target, ..self@ }),
    {
        let mut b = self;
        b.mirror.arm_state = target;
        b.mirror.arm_target = target;
        b.mirror.arm_target_last = target;
        b
    }

    /// The mirror.
    pub fn build(self) -> (res: OutsideMirror)
        ensures
            res@ == self@,
    {
        self.mirror
    }
}

/// An outside mirror's decisions.
#[derive(Debug)]
pub struct OutsideMirror {
    cab_side: Option<KeyEventCab>,
    key_arm: KeyEvent,
    key_grab: KeyEvent,
    arm_state: bool,
    /// Whether the arm is to be open.
    pub arm_target: bool,
    arm_target_last: bool,
    /// The directions in which the glass is to move.
    pub mirror_target: FourDirections,
    snd_open: Sound,
    snd_close: Sound,
    snd_move: Sound,
    snd_move_end: Sound,
}

impl View for OutsideMirror {
    type V = OutsideMirrorModel;

    closed spec fn view(&self) -> OutsideMirrorModel {
        OutsideMirrorModel {
            cab_side: self.cab_side,
            key_arm: self.key_arm@,
            key_grab: self.key_grab@,
            arm_state: self.arm_state,
            arm_target: self.arm_target,
            arm_target_last: self.arm_target_last,
            mirror_target: self.mirror_target,
            snd_open: self.snd_open@,
            snd_close: self.snd_close@,
            snd_move: self.snd_move@,
            snd_move_end: self.snd_move_end@,
        }
    }
}

/// Whether a key counts as held in this frame.
pub open spec fn key_held(k: KeyEventModel, state: ActionSnapshot) -> bool {
    (k.name is Some && (state.kind == ActionKind::JustPressed || state.kind == ActionKind::Pressed) && k.matching_cab(state))
        || k.injection
}

impl OutsideMirror {
    /// A builder of a folded mirror at rest, without keys or sounds, for the
    /// given cab.
    pub fn builder(cab_side: Option<KeyEventCab>) -> (res: OutsideMirrorBuilder)
        ensures
            res@ == (OutsideMirrorModel {
                cab_side,
                key_arm: fresh_key(None, None),
                key_grab: fresh_key(None, None),
                arm_state: false,
                arm_target: false,
                arm_target_last: false,
                mirror_target: FourDirections { up: false, down: false, left: false, right: false },
                snd_open: simple_sound(None),
                snd_close: simple_sound(None),
                snd_move: simple_sound(None),
                snd_move_end: simple_sound(None),
            }),
    {
        OutsideMirrorBuilder {
            mirror: OutsideMirror {
                cab_side,
                key_arm: KeyEvent::new(None, None),
                key_grab: KeyEvent::new(None, None),
                arm_state: false,
                arm_target: false,
                arm_target_last: false,
                mirror_target: FourDirections { up: false, down: false, left: false, right: false },
                snd_open: Sound::new_simple(None),
                snd_close: Sound::new_simple(None),
                snd_move: Sound::new_simple(None),
                snd_move_end: Sound::new_simple(None),
            },
        }
    }

    /// The names of the arm and glass keys, whose actions the host reads.
    pub fn keys(&self) -> (res: (&KeyEvent, &KeyEvent))
        ensures
            res.0@ == self@.key_arm,
            res.1@ == self@.key_grab,
    {
        (&self.key_arm, &self.key_grab)
    }

    /// Whether the arm is held by hand; the host then moves it.
    pub fn arm_grabbed(&mut self, state: &ActionSnapshot) -> (res: bool)
        ensures
            res == key_held(old(self)@.key_arm, *state),
            final(self)@ == (OutsideMirrorModel { key_arm: old(self)@.key_arm.after_query(), ..old(self)@ }),
    {
        self.key_arm.is_pressed(state)
    }

    /// Whether the glass is held by hand; the host then moves it.
    pub fn mirror_grabbed(&mut self, state: &ActionSnapshot) -> (res: bool)
        ensures
            res == key_held(old(self)@.key_grab, *state),
            final(self)@ == (OutsideMirrorModel { key_grab: old(self)@.key_grab.after_query(), ..old(self)@ }),
    {
        self.key_grab.is_pressed(state)
    }

    /// Whether the arm is open.
    pub fn arm_state(&self) -> (res: bool)
        ensures
            res == self@.arm_state,
    {
        self.arm_state
    }

    /// The direction the glass moves in when there is voltage.
    pub fn direction(&self) -> (res: Option<MirrorDirection>)
        ensures
            res == glass_direction(self@.mirror_target),
    {
        if self.mirror_target.up {
            Some(MirrorDirection::Up)
        } else if self.mirror_target.down {
            Some(MirrorDirection::Down)
        } else if self.mirror_target.left {
            Some(MirrorDirection::Left)
        } else if self.mirror_target.right {
            Some(MirrorDirection::Right)
        } else {
            None
        }
    }

    /// One cycle: whether there is enough voltage, whether the arm's motion
    /// of this cycle reaches its end, and whether the glass's motion of this
    /// cycle reaches the end of its travel.
    pub fn tick(&mut self, powered: bool, arm_at_end: bool, glass_at_end: bool) -> (res: MirrorTick)
        ensures
            res.arm_motion == (if old(self)@.arm_runs(powered) { Some(old(self)@.arm_target) } else { None }),
            res.glass_motion == (if powered { glass_direction(old(self)@.mirror_target) } else { None }),
            writes_view(res.writes@) == old(self)@.tick_writes(powered, glass_at_end),
            final(self)@ == (if old(self)@.arm_runs(powered) {
                OutsideMirrorModel {
                    arm_state: if arm_at_end { old(self)@.arm_target } else { old(self)@.arm_state },
                    arm_target_last: old(self)@.arm_target,
                    ..old(self)@
                }
            } else {
                old(self)@
            }),
    {
        let ghost m = self@;
        let mut out: Vec<VarWrite> = Vec::new();
        let mut arm_motion: Option<bool> = None;
        if powered && self.arm_target != self.arm_state {
            if !self.arm_target {
                if self.arm_target_last {
                    push_write(&mut out, self.snd_close.start());
                }
                if arm_at_end {
                    self.arm_state = false;
                }
            } else {
                if !self.arm_target_last {
                    push_write(&mut out, self.snd_open.start());
                }
                if arm_at_end {
                    self.arm_state = true;
                }
            }
            arm_motion = Some(self.arm_target);
            self.arm_target_last = self.arm_target;
        }
        assert(writes_view(out@) =~= start_if(m.arm_runs(powered) && !m.arm_target && m.arm_target_last, m.snd_close)
            + start_if(m.arm_runs(powered) && m.arm_target && !m.arm_target_last, m.snd_open));
        let ghost arm_part = writes_view(out@);
        let dir = self.direction();
        let glass_motion = if powered { dir } else { None };
        if powered && dir.is_some() && glass_at_end {
            push_write(&mut out, self.snd_move_end.start());
        }
        assert(writes_view(out@) =~= arm_part + start_if(powered && glass_direction(m.mirror_target) is Some && glass_at_end, m.snd_move_end));
        let ghost end_part = writes_view(out@);
        let one = self.mirror_target.is_one();
        push_write(&mut out, self.snd_move.start_stop(one && powered));
        assert(writes_view(out@) =~= m.tick_writes(powered, glass_at_end));
        MirrorTick { arm_motion, glass_motion, writes: out }
    }
}

/// Electric functions only work with enough voltage: without it the arm
/// motor and the glass stay still, the arm keeps its state, and no motion
/// sound plays.
pub proof fn lemma_no_voltage_no_motion(m: OutsideMirrorModel, glass_at_end: bool)
    ensures
        !m.arm_runs(false),
        m.tick_writes(false, glass_at_end) == opt_bool_write(m.snd_move.name, false),
{
    assert(m.tick_writes(false, glass_at_end) =~= opt_bool_write(m.snd_move.name, false));
}

/// The glass moves in the requested direction: a request of exactly one
/// direction moves it that way; it only ever moves in a requested
/// direction, and it moves whenever some direction is requested.
pub proof fn lemma_glass_follows_request(d: FourDirections)
    ensures
        (d.up && !d.down && !d.left && !d.right) ==> glass_direction(d) == Some(MirrorDirection::Up),
        (d.down && !d.up && !d.left && !d.right) ==> glass_direction(d) == Some(MirrorDirection::Down),
        (d.left && !d.up && !d.down && !d.right) ==> glass_direction(d) == Some(MirrorDirection::Left),
        (d.right && !d.up && !d.down && !d.left) ==> glass_direction(d) == Some(MirrorDirection::Right),
        glass_direction(d) == Some(MirrorDirection::Up) ==> d.up,
        glass_direction(d) == Some(MirrorDirection::Down) ==> d.down,
        glass_direction(d) == Some(MirrorDirection::Left) ==> d.left,
        glass_direction(d) == Some(MirrorDirection::Right) ==> d.right,
        glass_direction(d) is None <==> !(d.up || d.down || d.left || d.right),
{
}

/// The arm motor runs only with voltage and only while the arm is away
/// from its target; the glass motion sound plays exactly while one
/// direction is requested and there is voltage, and the end-of-travel
/// sound needs voltage and a request.
pub proof fn lemma_mirror_motion_sounds(m: OutsideMirrorModel, powered: bool, glass_at_end: bool)
    ensures
        m.arm_runs(powered) ==> powered && m.arm_target != m.arm_state,
        m.snd_move.name matches Some(n) ==> m.tick_writes(powered, glass_at_end).last()
            == (n, VarValue::Bool(one_direction(m.mirror_target) && powered)),
        !powered ==> m.tick_writes(powered, glass_at_end) == opt_bool_write(m.snd_move.name, false),
{
    assert(!powered ==> m.tick_writes(powered, glass_at_end) =~= opt_bool_write(m.snd_move.name, false));
}

} // verus!
