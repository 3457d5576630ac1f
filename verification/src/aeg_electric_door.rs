//! The door control of an AEG electric plug door: whether the door is
//! driven open or closed, whether it is held open by the door-1 button,
//! and what is done with its close timer.
//!
//! The door leaf itself moves by real-valued physics kept by the host. The
//! host also keeps the close timer's remaining time; the control sees only
//! the timer's phase and hands back, in order, what is done with it. Of the
//! timer the control assumes what its name says: a reset leaves it idle, a
//! start leaves it running, and only the host's ticking finishes it.
use vstd::prelude::*;
use crate::door_enums::DoorTarget;

verus! {

/// Where an AEG door stands, as its control sees it.
#[derive(Debug, Clone, Copy, PartialEq, Eq, Structural)]
pub enum AegDoorState {
    Closed,
    Opening,
    Open,
    Closing,
}

/// The phase of the close timer.
#[derive(Debug, Clone, Copy, PartialEq, Eq, Structural)]
pub enum CloseTimerPhase {
    /// Not started since the last reset.
    Idle,
    /// Started and not yet run out.
    Running,
    /// Run out.
    Finished,
}

/// Which open time a start of the close timer uses.
#[derive(Debug, Clone, Copy, PartialEq, Eq, Structural)]
pub enum OpenTime {
    /// The open time while the doors are released.
    Regular,
    /// The shortest open time, once the release is withdrawn.
    Min,
}

/// What is done with the close timer.
#[derive(Debug, Clone, Copy, PartialEq, Eq, Structural)]
pub enum CloseTimerOp {
    Reset,
    Start(OpenTime),
    /// Cut the remaining time down to the shortest open time.
    ClampToMin,
}

/// The timer's phase after an operation.
pub open spec fn phase_after(p: CloseTimerPhase, op: CloseTimerOp) -> CloseTimerPhase {
    match op {
        CloseTimerOp::Reset => CloseTimerPhase::Idle,
        CloseTimerOp::Start(_) => CloseTimerPhase::Running,
        CloseTimerOp::ClampToMin => p,
    }
}

/// What the control sees in a cycle.
#[derive(Debug, Clone, Copy, PartialEq, Eq, Structural)]
pub struct AegDoorInputs {
    /// The door control is powered.
    pub power: bool,
    /// The door command of the vehicle.
    pub door_target: DoorTarget,
    /// The door-1 button is pressed.
    pub door_1_btn: bool,
    /// The door is forced open whatever the command.
    pub forced_open: bool,
    /// A passenger has asked to get out.
    pub haltewunsch: bool,
    /// Nobody stands in the doorway.
    pub lichtschranke_frei: bool,
    /// The close timer's phase at the start of the cycle.
    pub timer: CloseTimerPhase,
}

/// The control's decision so far within a cycle.
pub struct AegControl {
    pub target: bool,
    pub manual_hold_open: bool,
    pub ops: Seq<CloseTimerOp>,
    pub phase: CloseTimerPhase,
}

/// A decision with the timer reset.
pub open spec fn with_reset(c: AegControl) -> AegControl {
    AegControl { ops: c.ops.push(CloseTimerOp::Reset), phase: CloseTimerPhase::Idle, ..c }
}

/// A decision with the timer started.
pub open spec fn with_start(c: AegControl, t: OpenTime) -> AegControl {
    AegControl { ops: c.ops.push(CloseTimerOp::Start(t)), phase: CloseTimerPhase::Running, ..c }
}

/// A decision with the timer cut down to the shortest open time.
pub open spec fn with_clamp(c: AegControl) -> AegControl {
    AegControl { ops: c.ops.push(CloseTimerOp::ClampToMin), ..c }
}

/// A decision with the given target.
pub open spec fn with_target(c: AegControl, target: bool) -> AegControl {
    AegControl { target, ..c }
}

/// The command in force: a forced opening overrides the vehicle's command.
pub open spec fn effective_target(inp: AegDoorInputs) -> DoorTarget {
    if inp.forced_open { DoorTarget::Oeffnen } else { inp.door_target }
}

/// The abstract state of an AEG door's control.
pub struct AegDoorModel {
    pub target: bool,
    pub manual_hold_open: bool,
    pub state: AegDoorState,
    pub closed_while_warning: bool,
}

impl AegDoorModel {
    /// Released doors: a door held open by the door-1 button keeps its
    /// timer reset; otherwise a stop request opens the door; an open door
    /// (re)starts the regular open time while the timer is idle, a stop is
    /// requested or the doorway is occupied; a run-out timer closes the
    /// door; a closing door reverses on a stop request or an occupied
    /// doorway.
    pub open spec fn release(self, c: AegControl, inp: AegDoorInputs) -> AegControl {
        if self.manual_hold_open {
            with_reset(c)
        } else {
            let c1 = if inp.haltewunsch { with_reset(with_target(c, true)) } else { c };
            let c2 = if self.state == AegDoorState::Open
                && (c1.phase == CloseTimerPhase::Idle || inp.haltewunsch || !inp.lichtschranke_frei) {
                with_start(c1, OpenTime::Regular)
            } else {
                c1
            };
            let c3 = if c2.phase == CloseTimerPhase::Finished { with_reset(with_target(c2, false)) } else { c2 };
            if self.state == AegDoorState::Closing && (inp.haltewunsch || !inp.lichtschranke_frei) {
                with_reset(with_target(c3, true))
            } else {
                c3
            }
        }
    }

    /// Doors no longer released: an open door not held by the door-1
    /// button stays open at most the shortest open time, then closes.
    pub open spec fn withdrawn(self, c: AegControl) -> AegControl {
        if self.state != AegDoorState::Open {
            c
        } else if self.manual_hold_open {
            with_reset(c)
        } else {
            let c1 = if c.phase == CloseTimerPhase::Idle { with_start(c, OpenTime::Min) } else { with_clamp(c) };
            if c1.phase == CloseTimerPhase::Finished { with_target(c1, false) } else { c1 }
        }
    }

    /// The decision of a cycle. Without power the timer is reset and
    /// nothing else changes. An opening command opens the door and ends a
    /// hold-open. Otherwise the door-1 button, pressed, drives a door that
    /// is open or opening closed, and any other door open and held open.
    pub open spec fn control(self, inp: AegDoorInputs) -> AegControl {
        let c0 = AegControl {
            target: self.target,
            manual_hold_open: self.manual_hold_open,
            ops: Seq::empty(),
            phase: inp.timer,
        };
        if !inp.power {
            with_reset(c0)
        } else {
            let t = effective_target(inp);
            let c1 = if t == DoorTarget::Oeffnen {
                with_reset(AegControl { target: true, manual_hold_open: false, ..c0 })
            } else if t == DoorTarget::Freigabe {
                self.release(c0, inp)
            } else {
                self.withdrawn(c0)
            };
            if inp.door_1_btn && t != DoorTarget::Oeffnen {
                let tg = !(self.state == AegDoorState::Open || self.state == AegDoorState::Opening);
                with_reset(AegControl { target: tg, manual_hold_open: tg, ..c1 })
            } else {
                c1
            }
        }
    }
}

/// Where the door stands: driven open it is opening until fully open;
/// otherwise closed once nearly shut, and closing before that.
pub open spec fn door_state(target: bool, fully_open: bool, closed: bool) -> AegDoorState {
    if target {
        if fully_open { AegDoorState::Open } else { AegDoorState::Opening }
    } else if closed {
        AegDoorState::Closed
    } else {
        AegDoorState::Closing
    }
}

/// Whether the passengers' door is released by a command: from release
/// upwards.
pub open spec fn released_by(t: DoorTarget) -> bool {
    t == DoorTarget::Freigabe || t == DoorTarget::Oeffnen
}

/// What a cycle of the control hands back.
pub struct AegDoorStep {
    /// What is done with the close timer, in order.
    pub ops: Vec<CloseTimerOp>,
    /// The target changed: the motion sounds of the door stop.
    pub target_changed: bool,
}

/// The control of an AEG electric plug door.
#[derive(Debug)]
pub struct AegDoorControl {
    target: bool,
    manual_hold_open: bool,
    state: AegDoorState,
    closed_while_warning: bool,
}

impl View for AegDoorControl {
    type V = AegDoorModel;

    closed spec fn view(&self) -> AegDoorModel {
        AegDoorModel {
            target: self.target,
            manual_hold_open: self.manual_hold_open,
            state: self.state,
            closed_while_warning: self.closed_while_warning,
        }
    }
}

fn push_reset(ops: &mut Vec<CloseTimerOp>, phase: &mut CloseTimerPhase)
    ensures
        final(ops)@ == old(ops)@.push(CloseTimerOp::Reset),
        *final(phase) == CloseTimerPhase::Idle,
{
    ops.push(CloseTimerOp::Reset);
    *phase = CloseTimerPhase::Idle;
}

fn push_start(ops: &mut Vec<CloseTimerOp>, phase: &mut CloseTimerPhase, t: OpenTime)
    ensures
        final(ops)@ == old(ops)@.push(CloseTimerOp::Start(t)),
        *final(phase) == CloseTimerPhase::Running,
{
    ops.push(CloseTimerOp::Start(t));
    *phase = CloseTimerPhase::Running;
}

impl AegDoorControl {
    /// A door at rest, closed, with no target.
    pub fn new() -> (res: Self)
        ensures
            res@ == (AegDoorModel {
                target: false,
                manual_hold_open: false,
                state: AegDoorState::Closed,
                closed_while_warning: false,
            }),
    {
        AegDoorControl { target: false, manual_hold_open: false, state: AegDoorState::Closed, closed_while_warning: false }
    }

    fn release(&self, target: &mut bool, ops: &mut Vec<CloseTimerOp>, phase: &mut CloseTimerPhase, inp: &AegDoorInputs)
        ensures
            ({
                let c = AegControl { target: *old(target), manual_hold_open: self@.manual_hold_open, ops: old(ops)@, phase: *old(phase) };
                let r = self@.release(c, *inp);
                *final(target) == r.target && final(ops)@ == r.ops && *final(phase) == r.phase
            }),
    {
        if self.manual_hold_open {
            push_reset(ops, phase);
        } else {
            if inp.haltewunsch {
                *target = true;
                push_reset(ops, phase);
            }
            if self.state == AegDoorState::Open
                && (*phase == CloseTimerPhase::Idle || inp.haltewunsch || !inp.lichtschranke_frei) {
                push_start(ops, phase, OpenTime::Regular);
            }
            if *phase == CloseTimerPhase::Finished {
                *target = false;
                push_reset(ops, phase);
            }
            if self.state == AegDoorState::Closing && (inp.haltewunsch || !inp.lichtschranke_frei) {
                *target = true;
                push_reset(ops, phase);
            }
        }
    }

    fn withdrawn(&self, target: &mut bool, ops: &mut Vec<CloseTimerOp>, phase: &mut CloseTimerPhase)
        ensures
            ({
                let c = AegControl { target: *old(target), manual_hold_open: self@.manual_hold_open, ops: old(ops)@, phase: *old(phase) };
                let r = self@.withdrawn(c);
                *final(target) == r.target && final(ops)@ == r.ops && *final(phase) == r.phase
            }),
    {
        if self.state == AegDoorState::Open {
            if self.manual_hold_open {
                push_reset(ops, phase);
            } else {
                if *phase == CloseTimerPhase::Idle {
                    push_start(ops, phase, OpenTime::Min);
                } else {
                    ops.push(CloseTimerOp::ClampToMin);
                }
                if *phase == CloseTimerPhase::Finished {
                    *target = false;
                }
            }
        }
    }

    /// The decision of a cycle (see [`AegDoorModel::control`]). The door's
    /// state is that of the last cycle.
    pub fn step(&mut self, inp: &AegDoorInputs) -> (res: AegDoorStep)
        ensures
            ({
                let c = old(self)@.control(*inp);
                &&& final(self)@ == (AegDoorModel { target: c.target, manual_hold_open: c.manual_hold_open, ..old(self)@ })
                &&& res.ops@ == c.ops
                &&& res.target_changed == (c.target != old(self)@.target)
            }),
    {
        let target_last = self.target;
        let mut target = self.target;
        let mut manual = self.manual_hold_open;
        let mut ops: Vec<CloseTimerOp> = Vec::new();
        let mut phase = inp.timer;
        if !inp.power {
            push_reset(&mut ops, &mut phase);
        } else {
            let t = if inp.forced_open { DoorTarget::Oeffnen } else { inp.door_target };
            let is_open = match t {
                DoorTarget::Oeffnen => true,
                _ => false,
            };
            let is_release = match t {
                DoorTarget::Freigabe => true,
                _ => false,
            };
            if is_open {
                target = true;
                manual = false;
                push_reset(&mut ops, &mut phase);
            } else if is_release {
                self.release(&mut target, &mut ops, &mut phase, inp);
            } else {
                self.withdrawn(&mut target, &mut ops, &mut phase);
            }
            if inp.door_1_btn && !is_open {
                let tg = !(self.state == AegDoorState::Open || self.state == AegDoorState::Opening);
                target = tg;
                manual = tg;
                push_reset(&mut ops, &mut phase);
            }
        }
        self.target = target;
        self.manual_hold_open = manual;
        AegDoorStep { ops, target_changed: target != target_last }
    }

    /// The door has come to rest at the end it was driven to: the target is
    /// dropped. `at_open_end` and `at_closed_end` say whether the leaf is at
    /// the open or the closed end.
    pub fn arrive(&mut self, at_rest: bool, at_open_end: bool, at_closed_end: bool)
        ensures
            final(self)@ == (AegDoorModel {
                target: if at_rest && ((old(self)@.target && at_open_end) || (!old(self)@.target && at_closed_end)) {
                    false
                } else {
                    old(self)@.target
                },
                ..old(self)@
            }),
    {
        if at_rest && ((self.target && at_open_end) || (!self.target && at_closed_end)) {
            self.target = false;
        }
    }

    /// Updates where the door stands (see [`door_state`]) and returns it.
    pub fn settle(&mut self, fully_open: bool, closed: bool) -> (res: AegDoorState)
        ensures
            res == door_state(old(self)@.target, fully_open, closed),
            final(self)@ == (AegDoorModel { state: res, ..old(self)@ }),
    {
        let s = if self.target {
            if fully_open { AegDoorState::Open } else { AegDoorState::Opening }
        } else if closed {
            AegDoorState::Closed
        } else {
            AegDoorState::Closing
        };
        self.state = s;
        s
    }

    /// Whether the closing warning sounds in a cycle: it is asked for, the
    /// door is powered, and the door was not already closed when the warning
    /// was asked for.
    pub fn warn_active(&mut self, warn_target: bool, power: bool) -> (res: bool)
        ensures
            ({
                let cww = if !warn_target {
                    false
                } else if old(self)@.state == AegDoorState::Closed {
                    true
                } else {
                    old(self)@.closed_while_warning
                };
                &&& final(self)@ == (AegDoorModel { closed_while_warning: cww, ..old(self)@ })
                &&& res == (warn_target && power && !cww)
            }),
    {
        if warn_target && self.state == AegDoorState::Closed {
            self.closed_while_warning = true;
        }
        if !warn_target {
            self.closed_while_warning = false;
        }
        warn_target && power && !self.closed_while_warning
    }

    /// Whether the door is driven open.
    pub fn target(&self) -> (res: bool)
        ensures
            res == self@.target,
    {
        self.target
    }

    /// Whether the door is held open by the door-1 button.
    pub fn manual_hold_open(&self) -> (res: bool)
        ensures
            res == self@.manual_hold_open,
    {
        self.manual_hold_open
    }

    /// Where the door stands.
    pub fn state(&self) -> (res: AegDoorState)
        ensures
            res == self@.state,
    {
        self.state
    }
}

/// Whether the passengers' door is released by a command (see
/// [`released_by`]).
pub fn released(t: DoorTarget) -> (res: bool)
    ensures
        res == released_by(t),
{
    match t {
        DoorTarget::Freigabe => true,
        DoorTarget::Oeffnen => true,
        _ => false,
    }
}

/// Without power the control keeps its target and hold-open and only
/// resets the close timer.
pub proof fn lemma_unpowered_door_only_resets_timer(m: AegDoorModel, inp: AegDoorInputs)
    requires
        !inp.power,
    ensures
        m.control(inp).target == m.target,
        m.control(inp).manual_hold_open == m.manual_hold_open,
        m.control(inp).ops == seq![CloseTimerOp::Reset],
{
    assert(m.control(inp).ops =~= seq![CloseTimerOp::Reset]);
}

/// A powered door that is forced open, or commanded open, is driven open
/// and no longer held by the door-1 button, whatever else happens.
pub proof fn lemma_open_command_opens(m: AegDoorModel, inp: AegDoorInputs)
    requires
        inp.power,
        inp.forced_open || inp.door_target == DoorTarget::Oeffnen,
    ensures
        m.control(inp).target,
        !m.control(inp).manual_hold_open,
{
}

/// Released doors reverse: a powered, closing door that is not held by the
/// door-1 button is driven open again when a stop is requested or the
/// doorway is occupied, unless the door-1 button is pressed.
pub proof fn lemma_closing_door_reverses(m: AegDoorModel, inp: AegDoorInputs)
    requires
        inp.power,
        !inp.forced_open,
        inp.door_target == DoorTarget::Freigabe,
        !inp.door_1_btn,
        !m.manual_hold_open,
        m.state == AegDoorState::Closing,
        inp.haltewunsch || !inp.lichtschranke_frei,
    ensures
        m.control(inp).target,
{
}

/// An open, released door does not close while the doorway is occupied or
/// a stop is requested: its close timer restarts, and the target stays as
/// it was or is set.
pub proof fn lemma_occupied_doorway_keeps_door_open(m: AegDoorModel, inp: AegDoorInputs)
    requires
        inp.power,
        !inp.forced_open,
        inp.door_target == DoorTarget::Freigabe,
        !inp.door_1_btn,
        !m.manual_hold_open,
        m.state == AegDoorState::Open,
        inp.haltewunsch || !inp.lichtschranke_frei,
    ensures
        m.control(inp).target == (m.target || inp.haltewunsch),
        m.control(inp).phase == CloseTimerPhase::Running,
{
}

/// The door-1 button, with power and without an opening command, toggles
/// the door: an open or opening door is driven closed and released from
/// hold-open, any other is driven open and held open.
pub proof fn lemma_door_1_button_toggles(m: AegDoorModel, inp: AegDoorInputs)
    requires
        inp.power,
        inp.door_1_btn,
        effective_target(inp) != DoorTarget::Oeffnen,
    ensures
        m.control(inp).target == !(m.state == AegDoorState::Open || m.state == AegDoorState::Opening),
        m.control(inp).manual_hold_open == m.control(inp).target,
        m.control(inp).phase == CloseTimerPhase::Idle,
{
}

/// A door held open by the door-1 button is not closed by its timer: with
/// power, without the button pressed and under any command but opening,
/// its target and hold-open stay as they are.
pub proof fn lemma_hold_open_is_kept(m: AegDoorModel, inp: AegDoorInputs)
    requires
        inp.power,
        m.manual_hold_open,
        !inp.door_1_btn,
        effective_target(inp) != DoorTarget::Oeffnen,
    ensures
        m.control(inp).target == m.target,
        m.control(inp).manual_hold_open,
{
}

/// Whether every timer operation fits the command: under a release the
/// regular open time may start but not the shortest one; otherwise the
/// shortest open time may start, or the timer be cut down, but the regular
/// one may not start.
spec fn ops_fit(ops: Seq<CloseTimerOp>, release: bool) -> bool {
    forall|k: int| 0 <= k < ops.len() ==> match #[trigger] ops[k] {
        CloseTimerOp::Reset => true,
        CloseTimerOp::Start(OpenTime::Regular) => release,
        CloseTimerOp::Start(OpenTime::Min) => !release,
        CloseTimerOp::ClampToMin => !release,
    }
}

proof fn lemma_push_fits(ops: Seq<CloseTimerOp>, op: CloseTimerOp, release: bool)
    requires
        ops_fit(ops, release),
        match op {
            CloseTimerOp::Reset => true,
            CloseTimerOp::Start(OpenTime::Regular) => release,
            CloseTimerOp::Start(OpenTime::Min) => !release,
            CloseTimerOp::ClampToMin => !release,
        },
    ensures
        ops_fit(ops.push(op), release),
{
    assert forall|k: int| 0 <= k < ops.push(op).len() implies match #[trigger] ops.push(op)[k] {
        CloseTimerOp::Reset => true,
        CloseTimerOp::Start(OpenTime::Regular) => release,
        CloseTimerOp::Start(OpenTime::Min) => !release,
        CloseTimerOp::ClampToMin => !release,
    } by {
        if k < ops.len() {
            assert(ops.push(op)[k] == ops[k]);
        }
    }
}

/// The regular open time is only started for released doors, and the
/// shortest open time only started, or the timer cut down to it, once the
/// release is withdrawn; all with power.
pub proof fn lemma_open_time_fits_command(m: AegDoorModel, inp: AegDoorInputs)
    ensures
        forall|k: int| 0 <= k < m.control(inp).ops.len() ==> match #[trigger] m.control(inp).ops[k] {
            CloseTimerOp::Reset => true,
            CloseTimerOp::Start(OpenTime::Regular) => inp.power && effective_target(inp) == DoorTarget::Freigabe,
            CloseTimerOp::Start(OpenTime::Min) => inp.power && effective_target(inp) != DoorTarget::Freigabe
                && effective_target(inp) != DoorTarget::Oeffnen,
            CloseTimerOp::ClampToMin => inp.power && effective_target(inp) != DoorTarget::Freigabe
                && effective_target(inp) != DoorTarget::Oeffnen,
        },
{
    let c0 = AegControl { target: m.target, manual_hold_open: m.manual_hold_open, ops: Seq::empty(), phase: inp.timer };
    let t = effective_target(inp);
    let rel = t == DoorTarget::Freigabe;
    assert(ops_fit(Seq::<CloseTimerOp>::empty(), rel));
    if inp.power {
        if t == DoorTarget::Oeffnen {
            lemma_push_fits(c0.ops, CloseTimerOp::Reset, rel);
        } else if rel {
            if m.manual_hold_open {
                lemma_push_fits(c0.ops, CloseTimerOp::Reset, rel);
            } else {
                let c1 = if inp.haltewunsch { with_reset(with_target(c0, true)) } else { c0 };
                if inp.haltewunsch { lemma_push_fits(c0.ops, CloseTimerOp::Reset, rel); }
                let c2 = if m.state == AegDoorState::Open
                    && (c1.phase == CloseTimerPhase::Idle || inp.haltewunsch || !inp.lichtschranke_frei) {
                    with_start(c1, OpenTime::Regular)
                } else {
                    c1
                };
                if c2 != c1 { lemma_push_fits(c1.ops, CloseTimerOp::Start(OpenTime::Regular), rel); }
                let c3 = if c2.phase == CloseTimerPhase::Finished { with_reset(with_target(c2, false)) } else { c2 };
                if c2.phase == CloseTimerPhase::Finished { lemma_push_fits(c2.ops, CloseTimerOp::Reset, rel); }
                if m.state == AegDoorState::Closing && (inp.haltewunsch || !inp.lichtschranke_frei) {
                    lemma_push_fits(c3.ops, CloseTimerOp::Reset, rel);
                }
            }
        } else {
            if m.state == AegDoorState::Open {
                if m.manual_hold_open {
                    lemma_push_fits(c0.ops, CloseTimerOp::Reset, rel);
                } else if c0.phase == CloseTimerPhase::Idle {
                    lemma_push_fits(c0.ops, CloseTimerOp::Start(OpenTime::Min), rel);
                } else {
                    lemma_push_fits(c0.ops, CloseTimerOp::ClampToMin, rel);
                }
            }
        }
        let c1 = if t == DoorTarget::Oeffnen {
            with_reset(AegControl { target: true, manual_hold_open: false, ..c0 })
        } else if rel {
            m.release(c0, inp)
        } else {
            m.withdrawn(c0)
        };
        assert(ops_fit(c1.ops, rel));
        if inp.door_1_btn && t != DoorTarget::Oeffnen {
            lemma_push_fits(c1.ops, CloseTimerOp::Reset, rel);
        }
        assert(ops_fit(m.control(inp).ops, rel));
    } else {
        lemma_push_fits(c0.ops, CloseTimerOp::Reset, rel);
        assert(m.control(inp).ops =~= seq![CloseTimerOp::Reset]);
    }
    let ops = m.control(inp).ops;
    assert forall|k: int| 0 <= k < ops.len() implies match #[trigger] ops[k] {
        CloseTimerOp::Reset => true,
        CloseTimerOp::Start(OpenTime::Regular) => inp.power && t == DoorTarget::Freigabe,
        CloseTimerOp::Start(OpenTime::Min) => inp.power && t != DoorTarget::Freigabe && t != DoorTarget::Oeffnen,
        CloseTimerOp::ClampToMin => inp.power && t != DoorTarget::Freigabe && t != DoorTarget::Oeffnen,
    } by {
        if inp.power && t == DoorTarget::Oeffnen {
            assert(ops_fit(ops, rel));
            assert(ops[k] == CloseTimerOp::Reset) by {
                let c1 = with_reset(AegControl { target: true, manual_hold_open: false, ..c0 });
                assert(c1.ops =~= seq![CloseTimerOp::Reset]);
            }
        } else {
            assert(ops_fit(ops, rel));
        }
    }
}

} // verus!
