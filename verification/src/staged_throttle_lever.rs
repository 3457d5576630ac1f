//! The stage logic of a staged throttle lever.
//!
//! The lever moves between integer snap points, from `min_snappoint`
//! (full brake) to `max_snappoint` (full power). The throttle key moves to
//! the next power stage, the brake key to a brake stage, the neutral key to
//! zero and the emergency key to the lowest snap point. A constraint level
//! can narrow the reachable range. How fast the lever moves and how it is
//! animated is left to the host.
use vstd::prelude::*;
use std::collections::HashMap;
use crate::current_collector::simple_sound;
use crate::host_vars::{VarValue, VarWrite, bool_write, opt_write_view, opt_bool_write};
use crate::sound::{Sound, SoundModel};

verus! {

broadcast use vstd::std_specs::hash::group_hash_axioms;

/// How the lever is currently being moved.
#[derive(Debug, Clone, Copy, PartialEq, Eq, Structural)]
pub enum MovementMode {
    Idle,
    Min,
    Up,
    Down,
}

/// The speed at which the host moves the lever after a key press.
#[derive(Debug, Clone, Copy, PartialEq, Eq)]
pub enum LeverSpeed {
    /// The normal speed, upwards.
    NormalUp,
    /// The normal speed, downwards.
    NormalDown,
    /// The fast speed, in the direction of the given sign (-1, 0 or 1).
    Fast(i32),
    /// The very fast speed, downwards.
    VeryFastDown,
    /// Standing still.
    Stop,
}

/// `r` is the least entry of `stages` above `snappoint`.
pub open spec fn is_least_above(stages: Seq<i32>, snappoint: i32, r: i32) -> bool {
    &&& stages.contains(r)
    &&& r > snappoint
    &&& forall|i: int| 0 <= i < stages.len() && stages[i] > snappoint ==> r <= #[trigger] stages[i]
}

/// `r` is the least entry of `stages` below `snappoint`.
pub open spec fn is_least_below(stages: Seq<i32>, snappoint: i32, r: i32) -> bool {
    &&& stages.contains(r)
    &&& r < snappoint
    &&& forall|i: int| 0 <= i < stages.len() && stages[i] < snappoint ==> r <= #[trigger] stages[i]
}

/// Some entry of `stages` lies above `snappoint`.
pub open spec fn has_above(stages: Seq<i32>, snappoint: i32) -> bool {
    exists|i: int| 0 <= i < stages.len() && #[trigger] stages[i] > snappoint
}

/// Some entry of `stages` lies below `snappoint`.
pub open spec fn has_below(stages: Seq<i32>, snappoint: i32) -> bool {
    exists|i: int| 0 <= i < stages.len() && #[trigger] stages[i] < snappoint
}

/// The stage the throttle key aims at: the least power stage above the
/// current snap point, or `max_snappoint` where there is none.
pub open spec fn next_stage_ok(stages_plus: Seq<i32>, snappoint: i32, max_snappoint: i32, r: i32) -> bool {
    if has_above(stages_plus, snappoint) {
        is_least_above(stages_plus, snappoint, r)
    } else {
        r == max_snappoint
    }
}

/// The stage the brake key aims at, before the emergency stage is excluded:
/// the least brake stage below the current snap point, or `min_snappoint`
/// where there is none.
pub open spec fn lower_stage_ok(stages_minus: Seq<i32>, snappoint: i32, min_snappoint: i32, r: i32) -> bool {
    if has_below(stages_minus, snappoint) {
        is_least_below(stages_minus, snappoint, r)
    } else {
        r == min_snappoint
    }
}

/// The abstract state of the lever's stage logic.
pub struct StagedLeverModel {
    pub max_snappoint: i32,
    pub min_snappoint: i32,
    pub stages_plus: Seq<i32>,
    pub stages_minus: Seq<i32>,
    pub last_stage_is_emergency_brake: bool,
    pub constraints: Map<i32, (i32, i32)>,
    pub snd_alt_snappoint: Map<i32, Seq<char>>,
    pub snd_snappoint_default: SoundModel,
    pub snappoint: i32,
    pub snappoint_last: i32,
    pub snappoint_target: i32,
    pub move_type: MovementMode,
}

/// The stage the brake key aims at: the brake stage found below the
/// current snap point (see [`lower_stage_ok`]), raised above the lowest snap
/// point where that is an emergency stage.
pub open spec fn brake_stage_ok(m: StagedLeverModel, res: i32) -> bool {
    exists|r: i32| #![trigger lower_stage_ok(m.stages_minus, m.snappoint, m.min_snappoint, r)] {
        &&& lower_stage_ok(m.stages_minus, m.snappoint, m.min_snappoint, r)
        &&& res == (if m.last_stage_is_emergency_brake {
            if r > m.min_snappoint + 1 { r } else { (m.min_snappoint + 1) as i32 }
        } else {
            r
        })
    }
}

/// The target kept inside the reachable range of a constraint level.
pub open spec fn clamped_target(m: StagedLeverModel, level: i32) -> i32 {
    if m.snappoint_target < m.local_min(level) {
        m.local_min(level)
    } else if m.snappoint_target > m.local_max(level) {
        m.local_max(level)
    } else {
        m.snappoint_target
    }
}

impl StagedLeverModel {
    /// The highest reachable snap point at a constraint level: the first
    /// value of its constraint, or `max_snappoint` without one.
    pub open spec fn local_max(self, level: i32) -> i32 {
        if self.constraints.contains_key(level) {
            self.constraints[level].0
        } else {
            self.max_snappoint
        }
    }

    /// The lowest reachable snap point at a constraint level: the second
    /// value of its constraint, or `min_snappoint` without one.
    pub open spec fn local_min(self, level: i32) -> i32 {
        if self.constraints.contains_key(level) {
            self.constraints[level].1
        } else {
            self.min_snappoint
        }
    }
}

/// The builder of a staged throttle lever's stage logic.
pub struct StagedThrottleLeverBuilder {
    max_snappoint: i32,
    min_snappoint: i32,
    stages_plus: Vec<i32>,
    stages_minus: Vec<i32>,
    last_stage_is_emergency_brake: bool,
    constraints: HashMap<i32, (i32, i32)>,
    snd_alt_snappoint: HashMap<i32, String>,
    snd_snappoint_default: Sound,
}

/// The abstract configuration held by the builder.
pub struct StagedBuilderModel {
    pub max_snappoint: i32,
    pub min_snappoint: i32,
    pub stages_plus: Seq<i32>,
    pub stages_minus: Seq<i32>,
    pub last_stage_is_emergency_brake: bool,
    pub constraints: Map<i32, (i32, i32)>,
    pub snd_alt_snappoint: Map<i32, Seq<char>>,
    pub snd_snappoint_default: SoundModel,
}

/// The names of the snap sounds, by snap point.
pub open spec fn sound_names(m: Map<i32, String>) -> Map<i32, Seq<char>> {
    m.map_values(|s: String| s@)
}

impl View for StagedThrottleLeverBuilder {
    type V = StagedBuilderModel;

    closed spec fn view(&self) -> StagedBuilderModel {
        StagedBuilderModel {
            max_snappoint: self.max_snappoint,
            min_snappoint: self.min_snappoint,
            stages_plus: self.stages_plus@,
            stages_minus: self.stages_minus@,
            last_stage_is_emergency_brake: self.last_stage_is_emergency_brake,
            constraints: self.constraints@,
            snd_alt_snappoint: sound_names(self.snd_alt_snappoint@),
            snd_snappoint_default: self.snd_snappoint_default@,
        }
    }
}

impl StagedThrottleLeverBuilder {
    /// Sets the highest snap point.
    pub fn max_snappoint(self, snappoint: i32) -> (res: Self)
        ensures
            res@ == (StagedBuilderModel { max_snappoint: snappoint, ..self@ }),
    {
        let mut s = self;
        s.max_snappoint = snappoint;
        s
    }

    /// Sets the lowest snap point.
    pub fn min_snappoint(self, snappoint: i32) -> (res: Self)
        ensures
            res@ == (StagedBuilderModel { min_snappoint: snappoint, ..self@ }),
    {
        let mut s = self;
        s.min_snappoint = snappoint;
        s
    }

    /// Adds a power stage that the throttle key stops at.
    pub fn add_stage_plus(self, snappoint: i32) -> (res: Self)
        ensures
            res@ == (StagedBuilderModel { stages_plus: self@.stages_plus.push(snappoint), ..self@ }),
    {
        let mut s = self;
        s.stages_plus.push(snappoint);
        s
    }

    /// Adds a brake stage that the brake key stops at.
    pub fn add_stage_minus(self, snappoint: i32) -> (res: Self)
        ensures
            res@ == (StagedBuilderModel { stages_minus: self@.stages_minus.push(snappoint), ..self@ }),
    {
        let mut s = self;
        s.stages_minus.push(snappoint);
        s
    }

    /// Marks the lowest snap point as an emergency stage that the brake key
    /// never reaches.
    pub fn last_stage_is_emergency_brake(self) -> (res: Self)
        ensures
            res@ == (StagedBuilderModel { last_stage_is_emergency_brake: true, ..self@ }),
    {
        let mut s = self;
        s.last_stage_is_emergency_brake = true;
        s
    }

    /// Sets the constraint of a level, replacing an earlier one.
    pub fn add_constraint(self, level: i32, min_index: i32, max_index: i32) -> (res: Self)
        ensures
            res@ == (StagedBuilderModel { constraints: self@.constraints.insert(level, (min_index, max_index)), ..self@ }),
    {
        let mut s = self;
        s.constraints.insert(level, (min_index, max_index));
        s
    }

    /// Plays the sound `sound_name` (instead of the default one) when the
    /// lever reaches `snappoint`, replacing an earlier one.
    pub fn add_alt_sound(self, snappoint: i32, sound_name: &str) -> (res: Self)
        ensures
            res@ == (StagedBuilderModel {
                snd_alt_snappoint: self@.snd_alt_snappoint.insert(snappoint, sound_name@),
                ..self@
            }),
    {
        let mut s = self;
        s.snd_alt_snappoint.insert(snappoint, String::from_str(sound_name));
        assert(sound_names(s.snd_alt_snappoint@) =~= self@.snd_alt_snappoint.insert(snappoint, sound_name@));
        s
    }

    /// The lever at rest at snap point zero.
    pub fn build(self) -> (res: StagedThrottleLever)
        ensures
            res@ == (StagedLeverModel {
                max_snappoint: self@.max_snappoint,
                min_snappoint: self@.min_snappoint,
                stages_plus: self@.stages_plus,
                stages_minus: self@.stages_minus,
                last_stage_is_emergency_brake: self@.last_stage_is_emergency_brake,
                constraints: self@.constraints,
                snd_alt_snappoint: self@.snd_alt_snappoint,
                snd_snappoint_default: self@.snd_snappoint_default,
                snappoint: 0,
                snappoint_last: 0,
                snappoint_target: 0,
                move_type: MovementMode::Idle,
            }),
    {
        StagedThrottleLever {
            max_snappoint: self.max_snappoint,
            min_snappoint: self.min_snappoint,
            stages_plus: self.stages_plus,
            stages_minus: self.stages_minus,
            last_stage_is_emergency_brake: self.last_stage_is_emergency_brake,
            constraints: self.constraints,
            snd_alt_snappoint: self.snd_alt_snappoint,
            snd_snappoint_default: self.snd_snappoint_default,
            snappoint: 0,
            snappoint_last: 0,
            snappoint_target: 0,
            move_type: MovementMode::Idle,
        }
    }
}

/// The stage logic of a staged throttle lever.
pub struct StagedThrottleLever {
    max_snappoint: i32,
    min_snappoint: i32,
    stages_plus: Vec<i32>,
    stages_minus: Vec<i32>,
    last_stage_is_emergency_brake: bool,
    constraints: HashMap<i32, (i32, i32)>,
    snd_alt_snappoint: HashMap<i32, String>,
    snd_snappoint_default: Sound,
    snappoint: i32,
    snappoint_last: i32,
    snappoint_target: i32,
    move_type: MovementMode,
}

impl View for StagedThrottleLever {
    type V = StagedLeverModel;

    closed spec fn view(&self) -> StagedLeverModel {
        StagedLeverModel {
            max_snappoint: self.max_snappoint,
            min_snappoint: self.min_snappoint,
            stages_plus: self.stages_plus@,
            stages_minus: self.stages_minus@,
            last_stage_is_emergency_brake: self.last_stage_is_emergency_brake,
            constraints: self.constraints@,
            snd_alt_snappoint: sound_names(self.snd_alt_snappoint@),
            snd_snappoint_default: self.snd_snappoint_default@,
            snappoint: self.snappoint,
            snappoint_last: self.snappoint_last,
            snappoint_target: self.snappoint_target,
            move_type: self.move_type,
        }
    }
}

impl StagedThrottleLever {
    /// A builder with both end snap points at zero, no stages and no
    /// constraints.
    pub fn builder() -> (res: StagedThrottleLeverBuilder)
        ensures
            res@ == (StagedBuilderModel {
                max_snappoint: 0,
                min_snappoint: 0,
                stages_plus: Seq::empty(),
                stages_minus: Seq::empty(),
                last_stage_is_emergency_brake: false,
                constraints: Map::empty(),
                snd_alt_snappoint: Map::empty(),
                snd_snappoint_default: simple_sound(None),
            }),
    {
        let b = StagedThrottleLeverBuilder {
            max_snappoint: 0,
            min_snappoint: 0,
            stages_plus: Vec::new(),
            stages_minus: Vec::new(),
            last_stage_is_emergency_brake: false,
            constraints: HashMap::new(),
            snd_alt_snappoint: HashMap::new(),
            snd_snappoint_default: Sound::new_simple(None),
        };
        assert(sound_names(b.snd_alt_snappoint@) =~= Map::empty());
        b
    }

    /// The stage the throttle key aims at.
    pub fn next_stage(&self) -> (res: i32)
        ensures
            next_stage_ok(self@.stages_plus, self@.snappoint, self@.max_snappoint, res),
    {
        if self.stages_plus.len() == 0 {
            return self.max_snappoint;
        }
        let mut next_larger: Option<i32> = None;
        let n = self.stages_plus.len();
        let ghost stages = self.stages_plus@;
        let sp = self.snappoint;
        for k in 0..n
            invariant
                n == stages.len(),
                stages == self.stages_plus@,
                sp == self.snappoint,
                next_larger is None ==> forall|i: int| 0 <= i < k ==> stages[i] <= sp,
                next_larger matches Some(c) ==> {
                    &&& c > sp
                    &&& exists|i: int| 0 <= i < k && stages[i] == c
                    &&& forall|i: int| 0 <= i < k && stages[i] > sp ==> c <= #[trigger] stages[i]
                },
        {
            let value = self.stages_plus[k];
            if value > sp {
                match next_larger {
                    None => {
                        next_larger = Some(value);
                    },
                    Some(current) => {
                        if value < current {
                            next_larger = Some(value);
                        }
                    },
                }
            }
        }
        match next_larger {
            Some(val) => {
                proof {
                    let i = choose|i: int| 0 <= i < n && stages[i] == val;
                    assert(stages[i] == val);
                }
                val
            },
            None => self.max_snappoint,
        }
    }

    /// The stage the brake key aims at: the least brake stage below the
    /// current snap point (or `min_snappoint`), raised above the lowest snap
    /// point where that is an emergency stage.
    pub fn prev_stage(&self) -> (res: i32)
        requires
            self@.last_stage_is_emergency_brake ==> self@.min_snappoint < i32::MAX,
        ensures
            exists|r: i32| #![trigger lower_stage_ok(self@.stages_minus, self@.snappoint, self@.min_snappoint, r)] {
                &&& lower_stage_ok(self@.stages_minus, self@.snappoint, self@.min_snappoint, r)
                &&& res == (if self@.last_stage_is_emergency_brake {
                    if r > self@.min_snappoint + 1 { r } else { (self@.min_snappoint + 1) as i32 }
                } else {
                    r
                })
            },
            brake_stage_ok(self@, res),
    {
        let mut next_smaller: Option<i32> = None;
        let n = self.stages_minus.len();
        let ghost stages = self.stages_minus@;
        let sp = self.snappoint;
        for k in 0..n
            invariant
                n == stages.len(),
                stages == self.stages_minus@,
                sp == self.snappoint,
                next_smaller is None ==> forall|i: int| 0 <= i < k ==> stages[i] >= sp,
                next_smaller matches Some(c) ==> {
                    &&& c < sp
                    &&& exists|i: int| 0 <= i < k && stages[i] == c
                    &&& forall|i: int| 0 <= i < k && stages[i] < sp ==> c <= #[trigger] stages[i]
                },
        {
            let value = self.stages_minus[k];
            if sp > value {
                match next_smaller {
                    None => {
                        next_smaller = Some(value);
                    },
                    Some(current) => {
                        if value < current {
                            next_smaller = Some(value);
                        }
                    },
                }
            }
        }
        let stage: i32 = match next_smaller {
            Some(val) => {
                proof {
                    let i = choose|i: int| 0 <= i < n && stages[i] == val;
                    assert(stages[i] == val);
                }
                val
            },
            None => self.min_snappoint,
        };
        assert(lower_stage_ok(self@.stages_minus, self@.snappoint, self@.min_snappoint, stage));
        let res = if self.last_stage_is_emergency_brake {
            let floor = self.min_snappoint + 1;
            if stage > floor { stage } else { floor }
        } else {
            stage
        };
        assert(res == (if self@.last_stage_is_emergency_brake {
            if stage > self@.min_snappoint + 1 { stage } else { (self@.min_snappoint + 1) as i32 }
        } else {
            stage
        }));
        res
    }

    /// The throttle key was pressed: aim at the next power stage, moving up.
    pub fn press_throttle(&mut self) -> (speed: LeverSpeed)
        ensures
            speed == LeverSpeed::NormalUp,
            next_stage_ok(old(self)@.stages_plus, old(self)@.snappoint, old(self)@.max_snappoint, final(self)@.snappoint_target),
            final(self)@ == (StagedLeverModel {
                snappoint_target: final(self)@.snappoint_target,
                move_type: MovementMode::Up,
                ..old(self)@
            }),
    {
        self.snappoint_target = self.next_stage();
        self.move_type = MovementMode::Up;
        LeverSpeed::NormalUp
    }

    /// The neutral key was pressed: aim at zero, fast, in its direction.
    pub fn press_neutral(&mut self) -> (speed: LeverSpeed)
        ensures
            speed == LeverSpeed::Fast(if old(self)@.snappoint > 0 { -1i32 } else if old(self)@.snappoint < 0 { 1i32 } else { 0i32 }),
            final(self)@ == (StagedLeverModel {
                snappoint_target: 0,
                move_type: MovementMode::Idle,
                ..old(self)@
            }),
    {
        self.snappoint_target = 0;
        self.move_type = MovementMode::Idle;
        let sign: i32 = if self.snappoint > 0 { -1 } else if self.snappoint < 0 { 1 } else { 0 };
        LeverSpeed::Fast(sign)
    }

    /// The brake key was pressed: aim at the brake stage, moving down.
    pub fn press_brake(&mut self) -> (speed: LeverSpeed)
        requires
            old(self)@.last_stage_is_emergency_brake ==> old(self)@.min_snappoint < i32::MAX,
        ensures
            speed == LeverSpeed::NormalDown,
            exists|r: i32| #![trigger lower_stage_ok(old(self)@.stages_minus, old(self)@.snappoint, old(self)@.min_snappoint, r)] {
                &&& lower_stage_ok(old(self)@.stages_minus, old(self)@.snappoint, old(self)@.min_snappoint, r)
                &&& final(self)@.snappoint_target == (if old(self)@.last_stage_is_emergency_brake {
                    if r > old(self)@.min_snappoint + 1 { r } else { (old(self)@.min_snappoint + 1) as i32 }
                } else {
                    r
                })
            },
            brake_stage_ok(old(self)@, final(self)@.snappoint_target),
            final(self)@ == (StagedLeverModel {
                snappoint_target: final(self)@.snappoint_target,
                move_type: MovementMode::Down,
                ..old(self)@
            }),
    {
        self.snappoint_target = self.prev_stage();
        self.move_type = MovementMode::Down;
        LeverSpeed::NormalDown
    }

    /// The emergency brake key was pressed: aim at the lowest snap point,
    /// very fast.
    pub fn press_max_brake(&mut self) -> (speed: LeverSpeed)
        ensures
            speed == LeverSpeed::VeryFastDown,
            final(self)@ == (StagedLeverModel {
                snappoint_target: old(self)@.min_snappoint,
                move_type: MovementMode::Min,
                ..old(self)@
            }),
    {
        self.snappoint_target = self.min_snappoint;
        self.move_type = MovementMode::Min;
        LeverSpeed::VeryFastDown
    }

    /// A stepping key (throttle, neutral or brake) was released. While the
    /// lever was stepping up or down, it stops at the snap point it has
    /// reached (`reached`, the host's rounded position); returns whether it
    /// stopped.
    pub fn release(&mut self, reached: i32) -> (stopped: bool)
        ensures
            stopped == (old(self)@.move_type == MovementMode::Up || old(self)@.move_type == MovementMode::Down),
            final(self)@ == (if stopped {
                StagedLeverModel {
                    snappoint: reached,
                    snappoint_target: reached,
                    move_type: MovementMode::Min,
                    ..old(self)@
                }
            } else {
                old(self)@
            }),
    {
        if self.move_type == MovementMode::Up || self.move_type == MovementMode::Down {
            self.snappoint = reached;
            self.snappoint_target = reached;
            self.move_type = MovementMode::Min;
            true
        } else {
            false
        }
    }

    /// The reachable range `(lowest, highest)` at a constraint level.
    pub fn constrained_limits(&self, constrain_level: i32) -> (res: (i32, i32))
        ensures
            res == (self@.local_min(constrain_level), self@.local_max(constrain_level)),
    {
        match self.constraints.get(&constrain_level) {
            Some(c) => (c.1, c.0),
            None => (self.min_snappoint, self.max_snappoint),
        }
    }

    /// Keeps the target inside the reachable range of the constraint level.
    pub fn clamp_target(&mut self, constrain_level: i32)
        requires
            old(self)@.local_min(constrain_level) <= old(self)@.local_max(constrain_level),
        ensures
            final(self)@ == (StagedLeverModel {
                snappoint_target: if old(self)@.snappoint_target < old(self)@.local_min(constrain_level) {
                    old(self)@.local_min(constrain_level)
                } else if old(self)@.snappoint_target > old(self)@.local_max(constrain_level) {
                    old(self)@.local_max(constrain_level)
                } else {
                    old(self)@.snappoint_target
                },
                ..old(self)@
            }),
            final(self)@.snappoint_target == clamped_target(old(self)@, constrain_level),
    {
        let (lo, hi) = self.constrained_limits(constrain_level);
        if self.snappoint_target < lo {
            self.snappoint_target = lo;
        } else if self.snappoint_target > hi {
            self.snappoint_target = hi;
        }
    }

    /// The lever has reached the snap point `snappoint` (the host's rounded
    /// position). Returns whether it is a new one, for which the host plays
    /// the snap sound.
    pub fn update_snappoint(&mut self, snappoint: i32) -> (changed: bool)
        ensures
            changed == (snappoint != old(self)@.snappoint_last),
            final(self)@ == (StagedLeverModel {
                snappoint,
                snappoint_last: snappoint,
                ..old(self)@
            }),
    {
        self.snappoint = snappoint;
        let changed = self.snappoint != self.snappoint_last;
        self.snappoint_last = snappoint;
        changed
    }

    /// The sound of reaching the current snap point: its own sound where it
    /// has one, else the default one.
    pub fn snap_sound(&mut self) -> (res: Option<VarWrite>)
        ensures
            opt_write_view(res) == (if old(self)@.snd_alt_snappoint.contains_key(old(self)@.snappoint) {
                seq![(old(self)@.snd_alt_snappoint[old(self)@.snappoint], VarValue::Bool(true))]
            } else {
                opt_bool_write(old(self)@.snd_snappoint_default.name, true)
            }),
            final(self)@ == old(self)@,
    {
        match self.snd_alt_snappoint.get(&self.snappoint) {
            Some(name) => Some(bool_write(name.clone(), true)),
            None => self.snd_snappoint_default.start(),
        }
    }

    /// Whether the lowest snap point is an emergency stage.
    pub fn last_stage_is_emergency_brake(&self) -> (res: bool)
        ensures
            res == self@.last_stage_is_emergency_brake,
    {
        self.last_stage_is_emergency_brake
    }

    /// The current snap point.
    pub fn snappoint(&self) -> (res: i32)
        ensures
            res == self@.snappoint,
    {
        self.snappoint
    }

    /// The snap point the lever is moving to.
    pub fn snappoint_target(&self) -> (res: i32)
        ensures
            res == self@.snappoint_target,
    {
        self.snappoint_target
    }

    /// How the lever is being moved.
    pub fn move_type(&self) -> (res: MovementMode)
        ensures
            res == self@.move_type,
    {
        self.move_type
    }

    /// The highest snap point.
    pub fn max_snappoint(&self) -> (res: i32)
        ensures
            res == self@.max_snappoint,
    {
        self.max_snappoint
    }

    /// The lowest snap point.
    pub fn min_snappoint(&self) -> (res: i32)
        ensures
            res == self@.min_snappoint,
    {
        self.min_snappoint
    }
}

/// The throttle key never skips a power stage: no power stage lies strictly
/// between the current snap point and the stage it aims at.
pub proof fn lemma_throttle_never_skips_stage(stages_plus: Seq<i32>, snappoint: i32, max_snappoint: i32, target: i32)
    requires
        next_stage_ok(stages_plus, snappoint, max_snappoint, target),
        has_above(stages_plus, snappoint),
    ensures
        target > snappoint,
        stages_plus.contains(target),
        forall|i: int| 0 <= i < stages_plus.len() ==> !(snappoint < #[trigger] stages_plus[i] && stages_plus[i] < target),
{
}

/// With an emergency stage, the brake key never aims at the lowest snap
/// point: its target stays above it.
pub proof fn lemma_brake_spares_emergency_stage(lower: i32, min_snappoint: i32)
    requires
        min_snappoint < i32::MAX,
    ensures
        (if lower > min_snappoint + 1 { lower } else { (min_snappoint + 1) as i32 }) > min_snappoint,
{
}

/// After clamping, the target lies inside the reachable range of the
/// constraint level.
pub proof fn lemma_clamped_target_in_range(m: StagedLeverModel, level: i32)
    requires
        m.local_min(level) <= m.local_max(level),
    ensures
        ({
            let t = if m.snappoint_target < m.local_min(level) {
                m.local_min(level)
            } else if m.snappoint_target > m.local_max(level) {
                m.local_max(level)
            } else {
                m.snappoint_target
            };
            m.local_min(level) <= t <= m.local_max(level)
        }),
{
}

/// The brake key aims below the lever: without an emergency stage it aims
/// at a brake stage below the current snap point, and at no stage lower
/// than any brake stage below it, or at the lowest snap point where there
/// is none; with an emergency stage it never aims at the lowest snap point.
pub proof fn lemma_brake_aims_below(m: StagedLeverModel, t: i32)
    requires
        brake_stage_ok(m, t),
        m.last_stage_is_emergency_brake ==> m.min_snappoint < i32::MAX,
    ensures
        m.last_stage_is_emergency_brake ==> t > m.min_snappoint,
        !m.last_stage_is_emergency_brake && has_below(m.stages_minus, m.snappoint) ==> {
            &&& t < m.snappoint
            &&& m.stages_minus.contains(t)
            &&& forall|i: int| 0 <= i < m.stages_minus.len() && m.stages_minus[i] < m.snappoint
                ==> t <= #[trigger] m.stages_minus[i]
        },
        !m.last_stage_is_emergency_brake && !has_below(m.stages_minus, m.snappoint) ==> t == m.min_snappoint,
{
}

/// Clamping keeps the target inside the reachable range of the constraint
/// level and leaves a target already inside it unchanged.
pub proof fn lemma_clamp_keeps_target_in_range(m: StagedLeverModel, level: i32)
    requires
        m.local_min(level) <= m.local_max(level),
    ensures
        m.local_min(level) <= clamped_target(m, level) <= m.local_max(level),
        m.local_min(level) <= m.snappoint_target <= m.local_max(level) ==> clamped_target(m, level) == m.snappoint_target,
{
}

} // verus!
