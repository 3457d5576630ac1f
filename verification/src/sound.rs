//! Sound control through script variables.
//!
//! A sound is started or stopped by setting its boolean variable. The
//! components here decide which sound variables to set; the host performs
//! the writes. Volume and pitch are real numbers and are set by the host.
use vstd::prelude::*;
use crate::host_vars::{VarValue, VarWrite, bool_write, opt_write_view, opt_bool_write, writes_view, push_write};
use crate::key_event::{opt_str_view, opt_name_view, owned_name};

verus! {

/// Whether a sound should play.
#[derive(Default, Debug, Copy, Clone, PartialEq, Eq, PartialOrd, Ord, Hash)]
pub enum SoundTarget {
    /// Start playing the sound.
    Start,
    /// Stop playing the sound.
    #[default]
    Stop,
}

impl From<i32> for SoundTarget {
    /// `1` starts a sound; any other value stops it.
    fn from(val: i32) -> (res: SoundTarget) {
        match val {
            1 => SoundTarget::Start,
            _ => SoundTarget::Stop,
        }
    }
}

impl vstd::std_specs::convert::FromSpecImpl<i32> for SoundTarget {
    open spec fn obeys_from_spec() -> bool {
        true
    }

    open spec fn from_spec(v: i32) -> SoundTarget {
        if v == 1 { SoundTarget::Start } else { SoundTarget::Stop }
    }
}

impl From<SoundTarget> for bool {
    /// `Start` is `true`, `Stop` is `false`.
    fn from(val: SoundTarget) -> (res: bool) {
        match val {
            SoundTarget::Start => true,
            SoundTarget::Stop => false,
        }
    }
}

impl vstd::std_specs::convert::FromSpecImpl<SoundTarget> for bool {
    open spec fn obeys_from_spec() -> bool {
        true
    }

    open spec fn from_spec(v: SoundTarget) -> bool {
        v == SoundTarget::Start
    }
}

/// The value a sound variable takes for a target.
pub open spec fn target_on(t: SoundTarget) -> bool {
    t == SoundTarget::Start
}

/// The boolean of a sound target.
pub fn target_to_bool(t: SoundTarget) -> (res: bool)
    ensures
        res == target_on(t),
{
    match t {
        SoundTarget::Start => true,
        SoundTarget::Stop => false,
    }
}

/// The abstract state of a sound: the names of its playback, volume and
/// pitch variables, where it has them.
pub struct SoundModel {
    pub name: Option<Seq<char>>,
    pub name_vol: Option<Seq<char>>,
    pub name_pitch: Option<Seq<char>>,
}

/// A sound with optional playback, volume and pitch variables.
#[derive(Default, Debug, Clone)]
pub struct Sound {
    name: Option<String>,
    name_vol: Option<String>,
    name_pitch: Option<String>,
}

impl View for Sound {
    type V = SoundModel;

    closed spec fn view(&self) -> SoundModel {
        SoundModel {
            name: opt_name_view(self.name),
            name_vol: opt_name_view(self.name_vol),
            name_pitch: opt_name_view(self.name_pitch),
        }
    }
}

impl Sound {
    /// A sound with the given playback, volume and pitch variables.
    pub fn new(name_sound: Option<&str>, name_volume: Option<&str>, name_pitch: Option<&str>) -> (res: Self)
        ensures
            res@ == (SoundModel {
                name: opt_str_view(name_sound),
                name_vol: opt_str_view(name_volume),
                name_pitch: opt_str_view(name_pitch),
            }),
    {
        Self { name: owned_name(name_sound), name_vol: owned_name(name_volume), name_pitch: owned_name(name_pitch) }
    }

    /// A sound with only a playback variable.
    pub fn new_simple(name_sound: Option<&str>) -> (res: Self)
        ensures
            res@ == (SoundModel { name: opt_str_view(name_sound), name_vol: None, name_pitch: None }),
    {
        Self { name: owned_name(name_sound), name_vol: None, name_pitch: None }
    }

    /// The write that sets the playback variable to `on`, where there is one.
    fn playback_write(&self, on: bool) -> (res: Option<VarWrite>)
        ensures
            opt_write_view(res) == opt_bool_write(self@.name, on),
    {
        match &self.name {
            Some(snd) => {
                let w = bool_write(snd.clone(), on);
                assert(opt_write_view(Some(w)) =~= opt_bool_write(self@.name, on));
                Some(w)
            },
            None => None,
        }
    }

    /// Sets the sound to the target: the playback variable becomes `true`
    /// for `Start` and `false` for `Stop`.
    pub fn update_target(&mut self, value: SoundTarget) -> (res: Option<VarWrite>)
        ensures
            opt_write_view(res) == opt_bool_write(old(self)@.name, target_on(value)),
            final(self)@ == old(self)@,
    {
        self.playback_write(target_to_bool(value))
    }

    /// Starts (`true`) or stops (`false`) the sound.
    pub fn start_stop(&mut self, value: bool) -> (res: Option<VarWrite>)
        ensures
            opt_write_view(res) == opt_bool_write(old(self)@.name, value),
            final(self)@ == old(self)@,
    {
        if value {
            self.playback_write(target_to_bool(SoundTarget::Start))
        } else {
            self.playback_write(target_to_bool(SoundTarget::Stop))
        }
    }

    /// Starts the sound.
    pub fn start(&mut self) -> (res: Option<VarWrite>)
        ensures
            opt_write_view(res) == opt_bool_write(old(self)@.name, true),
            final(self)@ == old(self)@,
    {
        self.playback_write(true)
    }

    /// Stops the sound.
    pub fn stop(&mut self) -> (res: Option<VarWrite>)
        ensures
            opt_write_view(res) == opt_bool_write(old(self)@.name, false),
            final(self)@ == old(self)@,
    {
        self.playback_write(false)
    }

    /// The name of the playback variable.
    pub fn name(&self) -> (res: &Option<String>)
        ensures
            opt_name_view(*res) == self@.name,
    {
        &self.name
    }

    /// The name of the volume variable, which the host sets.
    pub fn volume_name(&self) -> (res: &Option<String>)
        ensures
            opt_name_view(*res) == self@.name_vol,
    {
        &self.name_vol
    }

    /// The name of the pitch variable, which the host sets.
    pub fn pitch_name(&self) -> (res: &Option<String>)
        ensures
            opt_name_view(*res) == self@.name_pitch,
    {
        &self.name_pitch
    }
}

/// The abstract state of a sound with an end sound.
pub struct SoundWithEndModel {
    pub trigger_last: bool,
    pub snd: Seq<char>,
    pub snd_end: Seq<char>,
}

impl SoundWithEndModel {
    /// The writes of one tick: on a rising trigger the main sound starts and
    /// the end sound stops; on a falling trigger the main sound stops and the
    /// end sound starts; otherwise nothing.
    pub open spec fn tick_writes(self, trigger: bool) -> Seq<(Seq<char>, VarValue)> {
        if trigger == self.trigger_last {
            Seq::empty()
        } else if trigger {
            seq![(self.snd, VarValue::Bool(true)), (self.snd_end, VarValue::Bool(false))]
        } else {
            seq![(self.snd, VarValue::Bool(false)), (self.snd_end, VarValue::Bool(true))]
        }
    }
}

/// A sound that plays an end sound when it stops.
pub struct SoundWithEnd {
    trigger_last: bool,
    snd: Sound,
    snd_end: Sound,
}

impl View for SoundWithEnd {
    type V = SoundWithEndModel;

    closed spec fn view(&self) -> SoundWithEndModel {
        SoundWithEndModel {
            trigger_last: self.trigger_last,
            snd: self.snd@.name.unwrap(),
            snd_end: self.snd_end@.name.unwrap(),
        }
    }
}

impl SoundWithEnd {
    /// The sounds' invariant: both have a playback variable.
    pub closed spec fn wf(&self) -> bool {
        self.snd@.name is Some && self.snd_end@.name is Some
    }

    /// A sound with main and end sound variables, not triggered.
    pub fn new(snd_name: &str, snd_end_name: &str) -> (res: Self)
        ensures
            res.wf(),
            res@ == (SoundWithEndModel { trigger_last: false, snd: snd_name@, snd_end: snd_end_name@ }),
    {
        Self {
            trigger_last: false,
            snd: Sound::new_simple(Some(snd_name)),
            snd_end: Sound::new_simple(Some(snd_end_name)),
        }
    }

    /// Follows the trigger; returns the sound writes on a change.
    pub fn tick(&mut self, trigger: bool) -> (res: Vec<VarWrite>)
        requires
            old(self).wf(),
        ensures
            final(self).wf(),
            writes_view(res@) == old(self)@.tick_writes(trigger),
            final(self)@ == (SoundWithEndModel { trigger_last: trigger, ..old(self)@ }),
    {
        let mut out: Vec<VarWrite> = Vec::new();
        if self.trigger_last != trigger {
            if trigger {
                push_write(&mut out, self.snd.start());
                push_write(&mut out, self.snd_end.stop());
            } else {
                push_write(&mut out, self.snd.stop());
                push_write(&mut out, self.snd_end.start());
            }
            self.trigger_last = trigger;
        }
        assert(writes_view(out@) =~= old(self)@.tick_writes(trigger));
        out
    }
}

/// The abstract state of a sound with start, loop and end sounds.
pub struct SoundWithStartAndEndModel {
    pub trigger_last: bool,
    pub snd_start: Seq<char>,
    pub snd: Seq<char>,
    pub snd_end: Seq<char>,
}

impl SoundWithStartAndEndModel {
    /// The writes of one tick: on a rising trigger the start sound starts
    /// and the loop sound starts (it plays while the trigger is on); on a
    /// falling trigger the end sound starts and the loop sound stops;
    /// otherwise nothing.
    pub open spec fn tick_writes(self, trigger: bool) -> Seq<(Seq<char>, VarValue)> {
        if trigger == self.trigger_last {
            Seq::empty()
        } else if trigger {
            seq![(self.snd_start, VarValue::Bool(true)), (self.snd, VarValue::Bool(true))]
        } else {
            seq![(self.snd_end, VarValue::Bool(true)), (self.snd, VarValue::Bool(false))]
        }
    }
}

/// A sound with a start sound, a loop sound and an end sound.
pub struct SoundWithStartAndEnd {
    trigger_last: bool,
    snd_start: Sound,
    snd: Sound,
    snd_end: Sound,
}

impl View for SoundWithStartAndEnd {
    type V = SoundWithStartAndEndModel;

    closed spec fn view(&self) -> SoundWithStartAndEndModel {
        SoundWithStartAndEndModel {
            trigger_last: self.trigger_last,
            snd_start: self.snd_start@.name.unwrap(),
            snd: self.snd@.name.unwrap(),
            snd_end: self.snd_end@.name.unwrap(),
        }
    }
}

impl SoundWithStartAndEnd {
    /// The sounds' invariant: all three have a playback variable.
    pub closed spec fn wf(&self) -> bool {
        self.snd_start@.name is Some && self.snd@.name is Some && self.snd_end@.name is Some
    }

    /// A sound with start, loop and end sound variables, not triggered.
    pub fn new(snd_start_name: &str, snd_name: &str, snd_end_name: &str) -> (res: Self)
        ensures
            res.wf(),
            res@ == (SoundWithStartAndEndModel {
                trigger_last: false,
                snd_start: snd_start_name@,
                snd: snd_name@,
                snd_end: snd_end_name@,
            }),
    {
        Self {
            trigger_last: false,
            snd_start: Sound::new_simple(Some(snd_start_name)),
            snd: Sound::new_simple(Some(snd_name)),
            snd_end: Sound::new_simple(Some(snd_end_name)),
        }
    }

    /// Follows the trigger; returns the sound writes on a change.
    pub fn tick(&mut self, trigger: bool) -> (res: Vec<VarWrite>)
        requires
            old(self).wf(),
        ensures
            final(self).wf(),
            writes_view(res@) == old(self)@.tick_writes(trigger),
            final(self)@ == (SoundWithStartAndEndModel { trigger_last: trigger, ..old(self)@ }),
    {
        let mut out: Vec<VarWrite> = Vec::new();
        if self.trigger_last != trigger {
            if trigger {
                push_write(&mut out, self.snd_start.start());
                push_write(&mut out, self.snd.start());
            } else {
                push_write(&mut out, self.snd_end.start());
                push_write(&mut out, self.snd.stop());
            }
            self.trigger_last = trigger;
        }
        assert(writes_view(out@) =~= old(self)@.tick_writes(trigger));
        out
    }
}

/// Sound writes happen only on changes: a second tick with the same trigger
/// writes nothing.
pub proof fn lemma_sound_with_end_repeated_tick_is_silent(m: SoundWithEndModel, trigger: bool)
    ensures
        (SoundWithEndModel { trigger_last: trigger, ..m }).tick_writes(trigger) == Seq::<(Seq<char>, VarValue)>::empty(),
{
}

/// Sound writes happen only on changes: a second tick with the same trigger
/// writes nothing.
pub proof fn lemma_sound_with_start_and_end_repeated_tick_is_silent(m: SoundWithStartAndEndModel, trigger: bool)
    ensures
        (SoundWithStartAndEndModel { trigger_last: trigger, ..m }).tick_writes(trigger) == Seq::<(Seq<char>, VarValue)>::empty(),
{
}

/// A sound with an end sound follows its trigger: on every change the main
/// sound is set to the trigger and the end sound to its opposite, so the
/// end sound starts exactly when the trigger falls.
pub proof fn lemma_sound_with_end_follows_trigger(m: SoundWithEndModel, trigger: bool)
    requires
        trigger != m.trigger_last,
    ensures
        m.tick_writes(trigger).contains((m.snd, VarValue::Bool(trigger))),
        m.tick_writes(trigger).contains((m.snd_end, VarValue::Bool(!trigger))),
        m.tick_writes(trigger).len() == 2,
{
    assert(m.tick_writes(trigger)[0] == (m.snd, VarValue::Bool(trigger)));
    assert(m.tick_writes(trigger)[1] == (m.snd_end, VarValue::Bool(!trigger)));
}

/// A sound with start and end sounds follows its trigger: a rising trigger
/// starts the start sound and the loop, a falling one starts the end sound
/// and stops the loop.
pub proof fn lemma_sound_with_start_and_end_follows_trigger(m: SoundWithStartAndEndModel, trigger: bool)
    requires
        trigger != m.trigger_last,
    ensures
        m.tick_writes(trigger).contains((m.snd, VarValue::Bool(trigger))),
        trigger ==> m.tick_writes(trigger).contains((m.snd_start, VarValue::Bool(true))),
        !trigger ==> m.tick_writes(trigger).contains((m.snd_end, VarValue::Bool(true))),
        m.tick_writes(trigger).len() == 2,
{
    assert(m.tick_writes(trigger)[1] == (m.snd, VarValue::Bool(trigger)));
    assert(m.tick_writes(trigger)[0] == (if trigger { (m.snd_start, VarValue::Bool(true)) } else { (m.snd_end, VarValue::Bool(true)) }));
}

} // verus!
