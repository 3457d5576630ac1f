//! Door request buttons.
//!
//! A request button is pressed by the player (a key event) or by the
//! simulated passengers at the doors it serves, who leave a request in the
//! variables `DoorReqIn_<door>` (to leave) or `DoorReqOut_<door>` (to
//! enter). The button takes those requests and clears them.
use vstd::prelude::*;
use crate::host_vars::{VarValue, VarWrite, bool_write, indexed_name, indexed_name_spec, writes_view};
use crate::key_event::{ActionKind, ActionSnapshot, KeyEvent, KeyEventCab, KeyEventModel, fresh_key};
use crate::light::Light;
use crate::visible_flag::Visiblility;

verus! {

/// The writes that clear the requests of the given doors, in order.
pub open spec fn clear_writes(prefix: Seq<char>, doors: Seq<usize>) -> Seq<(Seq<char>, VarValue)> {
    doors.map_values(|d: usize| (indexed_name_spec(prefix, d as nat), VarValue::Bool(false)))
}

/// Whether any of the read requests is set.
pub open spec fn any_request(requests: Seq<bool>) -> bool {
    exists|i: int| 0 <= i < requests.len() && #[trigger] requests[i]
}

/// The names of the request variables of the given doors.
pub open spec fn request_names(prefix: Seq<char>, doors: Seq<usize>) -> Seq<Seq<char>> {
    doors.map_values(|d: usize| indexed_name_spec(prefix, d as nat))
}

/// The names of the request variables `prefix<door>`, in order.
fn request_vars(prefix: &str, doors: &Vec<usize>) -> (res: Vec<String>)
    ensures
        res@.map_values(|s: String| s@) == request_names(prefix@, doors@),
{
    let mut out: Vec<String> = Vec::new();
    let n = doors.len();
    for i in 0..n
        invariant
            n == doors@.len(),
            out@.map_values(|s: String| s@) == request_names(prefix@, doors@.take(i as int)),
    {
        let ghost before = out@;
        let name = indexed_name(prefix, doors[i]);
        out.push(name);
        assert(doors@.take(i + 1) =~= doors@.take(i as int).push(doors@[i as int]));
        assert(out@ =~= before.push(name));
        assert(out@.map_values(|s: String| s@) =~= before.map_values(|s: String| s@).push(name@));
        assert(out@.map_values(|s: String| s@) =~= request_names(prefix@, doors@.take(i + 1)));
    }
    assert(doors@.take(n as int) =~= doors@);
    out
}

/// Takes the read requests of the doors: whether any is set, and the writes
/// that clear all of them.
fn take_requests(prefix: &str, doors: &Vec<usize>, requests: &Vec<bool>) -> (res: (bool, Vec<VarWrite>))
    requires
        requests@.len() == doors@.len(),
    ensures
        res.0 == any_request(requests@),
        writes_view(res.1@) == clear_writes(prefix@, doors@),
{
    let mut value = false;
    let mut out: Vec<VarWrite> = Vec::new();
    let n = doors.len();
    for i in 0..n
        invariant
            n == doors@.len(),
            n == requests@.len(),
            value == any_request(requests@.take(i as int)),
            writes_view(out@) == clear_writes(prefix@, doors@.take(i as int)),
    {
        let ghost before = requests@.take(i as int);
        value = value || requests[i];
        assert(requests@.take(i + 1) =~= before.push(requests@[i as int]));
        assert(value == any_request(requests@.take(i + 1))) by {
            if requests@[i as int] {
                assert(requests@.take(i + 1)[i as int]);
            }
            if any_request(requests@.take(i + 1)) && !requests@[i as int] {
                let j = choose|j: int| 0 <= j < requests@.take(i + 1).len() && #[trigger] requests@.take(i + 1)[j];
                assert(before[j]);
            }
        }
        let ghost before_out = out@;
        let w = bool_write(indexed_name(prefix, doors[i]), false);
        out.push(w);
        assert(doors@.take(i + 1) =~= doors@.take(i as int).push(doors@[i as int]));
        assert(out@ =~= before_out.push(w));
        assert(writes_view(out@) =~= writes_view(before_out).push((w.name@, w.value)));
        assert(writes_view(out@) =~= clear_writes(prefix@, doors@.take(i + 1)));
    }
    assert(requests@.take(n as int) =~= requests@);
    assert(doors@.take(n as int) =~= doors@);
    (value, out)
}

/// The abstract state of a simple request button.
pub struct RequestButtonModel {
    pub key_toggle: KeyEventModel,
    pub ai_door_btns: Seq<usize>,
}

/// A simple button that requests to leave.
pub struct SimpleInBtn {
    key_toggle: KeyEvent,
    ai_door_btns: Vec<usize>,
}

impl View for SimpleInBtn {
    type V = RequestButtonModel;

    closed spec fn view(&self) -> RequestButtonModel {
        RequestButtonModel { key_toggle: self.key_toggle@, ai_door_btns: self.ai_door_btns@ }
    }
}

/// Whether the key counts as pressed in this frame.
pub open spec fn key_pressed(k: KeyEventModel, state: ActionSnapshot) -> bool {
    (k.name is Some && (state.kind == ActionKind::JustPressed || state.kind == ActionKind::Pressed) && k.matching_cab(state))
        || k.injection
}

impl SimpleInBtn {
    /// A button for the key event `event_toggle_name` that also takes the
    /// passengers' requests at the given doors.
    pub fn new(cab_side: Option<KeyEventCab>, event_toggle_name: &str, ai_doors: Vec<usize>) -> (res: Self)
        ensures
            res@.key_toggle == fresh_key(Some(event_toggle_name@), cab_side),
            res@.ai_door_btns == ai_doors@,
    {
        Self { key_toggle: KeyEvent::new(Some(event_toggle_name), cab_side), ai_door_btns: ai_doors }
    }

    /// The variables `DoorReqIn_<door>` the host reads for [`Self::tick`].
    pub fn request_vars(&self) -> (res: Vec<String>)
        ensures
            res@.map_values(|s: String| s@) == request_names("DoorReqIn_"@, self@.ai_door_btns),
    {
        request_vars("DoorReqIn_", &self.ai_door_btns)
    }

    /// Whether the button is pressed or a passenger requests to leave, given
    /// the key's state and the requests read, in the order of
    /// [`Self::request_vars`]. Also returns the writes that clear the
    /// requests.
    pub fn tick(&mut self, state: &ActionSnapshot, requests: &Vec<bool>) -> (res: (bool, Vec<VarWrite>))
        requires
            requests@.len() == old(self)@.ai_door_btns.len(),
        ensures
            res.0 == (key_pressed(old(self)@.key_toggle, *state) || any_request(requests@)),
            writes_view(res.1@) == clear_writes("DoorReqIn_"@, old(self)@.ai_door_btns),
            final(self)@ == (RequestButtonModel { key_toggle: old(self)@.key_toggle.after_query(), ..old(self)@ }),
    {
        let pressed = self.key_toggle.is_pressed(state);
        let (req, writes) = take_requests("DoorReqIn_", &self.ai_door_btns, requests);
        (pressed || req, writes)
    }
}

/// A simple button that requests to enter.
pub struct SimpleOutBtn {
    key_toggle: KeyEvent,
    ai_door_btns: Vec<usize>,
}

impl View for SimpleOutBtn {
    type V = RequestButtonModel;

    closed spec fn view(&self) -> RequestButtonModel {
        RequestButtonModel { key_toggle: self.key_toggle@, ai_door_btns: self.ai_door_btns@ }
    }
}

impl SimpleOutBtn {
    /// A button for the key event `event_toggle_name` that also takes the
    /// passengers' requests at the given doors.
    pub fn new(cab_side: Option<KeyEventCab>, event_toggle_name: &str, ai_doors: Vec<usize>) -> (res: Self)
        ensures
            res@.key_toggle == fresh_key(Some(event_toggle_name@), cab_side),
            res@.ai_door_btns == ai_doors@,
    {
        Self { key_toggle: KeyEvent::new(Some(event_toggle_name), cab_side), ai_door_btns: ai_doors }
    }

    /// The variables `DoorReqOut_<door>` the host reads for [`Self::tick`].
    pub fn request_vars(&self) -> (res: Vec<String>)
        ensures
            res@.map_values(|s: String| s@) == request_names("DoorReqOut_"@, self@.ai_door_btns),
    {
        request_vars("DoorReqOut_", &self.ai_door_btns)
    }

    /// Whether the button is pressed or a passenger requests to enter, given
    /// the key's state and the requests read, in the order of
    /// [`Self::request_vars`]. Also returns the writes that clear the
    /// requests.
    pub fn tick(&mut self, state: &ActionSnapshot, requests: &Vec<bool>) -> (res: (bool, Vec<VarWrite>))
        requires
            requests@.len() == old(self)@.ai_door_btns.len(),
        ensures
            res.0 == (key_pressed(old(self)@.key_toggle, *state) || any_request(requests@)),
            writes_view(res.1@) == clear_writes("DoorReqOut_"@, old(self)@.ai_door_btns),
            final(self)@ == (RequestButtonModel { key_toggle: old(self)@.key_toggle.after_query(), ..old(self)@ }),
    {
        let pressed = self.key_toggle.is_pressed(state);
        let (req, writes) = take_requests("DoorReqOut_", &self.ai_door_btns, requests);
        (pressed || req, writes)
    }
}

/// The abstract state of a combined request button for a buggy or a
/// wheelchair.
pub struct DuoSpecialInBtnModel {
    pub buggy: bool,
    pub wheelchair: bool,
    pub key_kombi: KeyEventModel,
}

/// A combined request button: on the leading vehicle it requests the
/// wheelchair ramp, elsewhere room for a buggy.
pub struct DuoSpecialInBtn {
    buggy: bool,
    wheelchair: bool,
    key_kombi: KeyEvent,
}

impl View for DuoSpecialInBtn {
    type V = DuoSpecialInBtnModel;

    closed spec fn view(&self) -> DuoSpecialInBtnModel {
        DuoSpecialInBtnModel { buggy: self.buggy, wheelchair: self.wheelchair, key_kombi: self.key_kombi@ }
    }
}

impl DuoSpecialInBtn {
    /// A button for the key event `event_kombi_name`, with no request.
    pub fn new(cab_side: Option<KeyEventCab>, event_kombi_name: &str) -> (res: Self)
        ensures
            res@ == (DuoSpecialInBtnModel {
                buggy: false,
                wheelchair: false,
                key_kombi: fresh_key(Some(event_kombi_name@), cab_side),
            }),
    {
        Self { buggy: false, wheelchair: false, key_kombi: KeyEvent::new(Some(event_kombi_name), cab_side) }
    }

    /// While the key is pressed, the request (wheelchair on the leading
    /// vehicle, buggy elsewhere) is set to whether it is `allowed`.
    pub fn tick(&mut self, state: &ActionSnapshot, allowed: bool, leader: bool)
        ensures
            final(self)@ == (if key_pressed(old(self)@.key_kombi, *state) {
                if leader {
                    DuoSpecialInBtnModel { wheelchair: allowed, key_kombi: old(self)@.key_kombi.after_query(), ..old(self)@ }
                } else {
                    DuoSpecialInBtnModel { buggy: allowed, key_kombi: old(self)@.key_kombi.after_query(), ..old(self)@ }
                }
            } else {
                DuoSpecialInBtnModel { key_kombi: old(self)@.key_kombi.after_query(), ..old(self)@ }
            }),
    {
        if self.key_kombi.is_pressed(state) {
            if leader {
                self.wheelchair = allowed;
            } else {
                self.buggy = allowed;
            }
        }
    }

    /// The wheelchair request; where it is not `allowed`, it is dropped first.
    pub fn value_wheelchair(&mut self, allowed: bool) -> (res: bool)
        ensures
            res == (allowed && old(self)@.wheelchair),
            final(self)@ == (DuoSpecialInBtnModel { wheelchair: res, ..old(self)@ }),
    {
        if !allowed {
            self.reset_wheelchair();
        }
        self.wheelchair
    }

    /// The buggy request; where it is not `allowed`, it is dropped first.
    pub fn value_buggy(&mut self, allowed: bool) -> (res: bool)
        ensures
            res == (allowed && old(self)@.buggy),
            final(self)@ == (DuoSpecialInBtnModel { buggy: res, ..old(self)@ }),
    {
        if !allowed {
            self.reset_buggy();
        }
        self.buggy
    }

    /// Drops the wheelchair request.
    pub fn reset_wheelchair(&mut self)
        ensures
            final(self)@ == (DuoSpecialInBtnModel { wheelchair: false, ..old(self)@ }),
    {
        self.wheelchair = false;
    }

    /// Drops the buggy request.
    pub fn reset_buggy(&mut self)
        ensures
            final(self)@ == (DuoSpecialInBtnModel { buggy: false, ..old(self)@ }),
    {
        self.buggy = false;
    }
}

/// Whether the key counts as released in this frame.
pub open spec fn key_released(k: KeyEventModel, state: ActionSnapshot) -> bool {
    k.name is Some
        && (state.kind == ActionKind::JustReleased || state.kind == ActionKind::Inactive)
        && k.matching_cab(state)
        && !k.injection
}

/// The outcome of a push button's cycle.
pub struct PushButtonTick {
    /// Whether a request is made: the button is pressed or a passenger
    /// requests.
    pub value: bool,
    /// Whether the button is held down; the host shows it pressed.
    pub pressed: bool,
    /// The writes: the lamps' flags, where the button has lamps, then the
    /// clearing of the passengers' requests.
    pub writes: Vec<VarWrite>,
}

/// The abstract state of a push button with a lamp.
pub struct LightedButtonModel {
    pub btn_anim: Seq<char>,
    pub key_toggle: KeyEventModel,
    pub btn_light: Option<Seq<char>>,
    pub ai_door_btns: Seq<usize>,
}

/// A push button that requests to leave, with a lamp that shows a pending
/// request.
pub struct SimpleWithStateInPushBtn {
    /// The name of the button's animation.
    pub btn_anim: String,
    pub key_toggle: KeyEvent,
    btn_request_light: Light,
    ai_door_btns: Vec<usize>,
}

impl View for SimpleWithStateInPushBtn {
    type V = LightedButtonModel;

    closed spec fn view(&self) -> LightedButtonModel {
        LightedButtonModel {
            btn_anim: self.btn_anim@,
            key_toggle: self.key_toggle@,
            btn_light: self.btn_request_light@,
            ai_door_btns: self.ai_door_btns@,
        }
    }
}

impl SimpleWithStateInPushBtn {
    /// A button with the animation `anim_name`, the key event
    /// `event_toggle_name`, the request lamp `light_request_name`, taking
    /// the passengers' requests at the given doors.
    pub fn new(
        cab_side: Option<KeyEventCab>,
        anim_name: &str,
        event_toggle_name: &str,
        light_request_name: &str,
        ai_doors: Vec<usize>,
    ) -> (res: Self)
        ensures
            res@ == (LightedButtonModel {
                btn_anim: anim_name@,
                key_toggle: fresh_key(Some(event_toggle_name@), cab_side),
                btn_light: Some(light_request_name@),
                ai_door_btns: ai_doors@,
            }),
    {
        Self {
            btn_anim: String::from_str(anim_name),
            key_toggle: KeyEvent::new(Some(event_toggle_name), cab_side),
            btn_request_light: Light::new(Some(light_request_name)),
            ai_door_btns: ai_doors,
        }
    }

    /// The request lamp, whose brightness the host sets.
    pub fn request_light(&self) -> (res: &Light)
        ensures
            res@ == self@.btn_light,
    {
        &self.btn_request_light
    }

    /// The variables `DoorReqIn_<door>` the host reads for [`Self::tick`].
    pub fn request_vars(&self) -> (res: Vec<String>)
        ensures
            res@.map_values(|s: String| s@) == request_names("DoorReqIn_"@, self@.ai_door_btns),
    {
        request_vars("DoorReqIn_", &self.ai_door_btns)
    }

    /// Whether the button is pressed or a passenger requests to leave, given
    /// the key's state and the requests read, in the order of
    /// [`Self::request_vars`]; also whether the button is held, and the
    /// writes that clear the requests.
    pub fn tick(&mut self, state: &ActionSnapshot, requests: &Vec<bool>) -> (res: PushButtonTick)
        requires
            requests@.len() == old(self)@.ai_door_btns.len(),
        ensures
            res.pressed == key_pressed(old(self)@.key_toggle, *state),
            res.value == (res.pressed || any_request(requests@)),
            writes_view(res.writes@) == clear_writes("DoorReqIn_"@, old(self)@.ai_door_btns),
            final(self)@ == (LightedButtonModel { key_toggle: old(self)@.key_toggle.after_query(), ..old(self)@ }),
    {
        let pressed = self.key_toggle.is_pressed(state);
        let (req, writes) = take_requests("DoorReqIn_", &self.ai_door_btns, requests);
        PushButtonTick { value: pressed || req, pressed, writes }
    }
}

/// The abstract state of the two-button request panel.
pub struct TwoButtonModel {
    pub btn1_anim: Seq<char>,
    pub btn2_anim: Seq<char>,
    pub key1_toggle: KeyEventModel,
    pub key2_toggle: KeyEventModel,
    pub btn_light: Option<Seq<char>>,
    pub ai_door_btns: Seq<usize>,
}

/// A triangular panel with two push buttons that request to leave, and a
/// lamp.
pub struct DuwagDreieckIn2PushBtn {
    btn1_anim: String,
    btn2_anim: String,
    key1_toggle: KeyEvent,
    key2_toggle: KeyEvent,
    btn_light: Light,
    ai_door_btns: Vec<usize>,
}

impl View for DuwagDreieckIn2PushBtn {
    type V = TwoButtonModel;

    closed spec fn view(&self) -> TwoButtonModel {
        TwoButtonModel {
            btn1_anim: self.btn1_anim@,
            btn2_anim: self.btn2_anim@,
            key1_toggle: self.key1_toggle@,
            key2_toggle: self.key2_toggle@,
            btn_light: self.btn_light@,
            ai_door_btns: self.ai_door_btns@,
        }
    }
}

impl DuwagDreieckIn2PushBtn {
    /// A panel with the two buttons' animations and key events, the lamp
    /// `light_name`, taking the passengers' requests at the given doors.
    pub fn new(
        cab_side: Option<KeyEventCab>,
        anim1_name: &str,
        anim2_name: &str,
        event1_toggle_name: &str,
        event2_toggle_name: &str,
        light_name: &str,
        ai_doors: Vec<usize>,
    ) -> (res: Self)
        ensures
            res@ == (TwoButtonModel {
                btn1_anim: anim1_name@,
                btn2_anim: anim2_name@,
                key1_toggle: fresh_key(Some(event1_toggle_name@), cab_side),
                key2_toggle: fresh_key(Some(event2_toggle_name@), cab_side),
                btn_light: Some(light_name@),
                ai_door_btns: ai_doors@,
            }),
    {
        Self {
            btn1_anim: String::from_str(anim1_name),
            btn2_anim: String::from_str(anim2_name),
            key1_toggle: KeyEvent::new(Some(event1_toggle_name), cab_side),
            key2_toggle: KeyEvent::new(Some(event2_toggle_name), cab_side),
            btn_light: Light::new(Some(light_name)),
            ai_door_btns: ai_doors,
        }
    }

    /// The names of the two buttons' animations.
    pub fn anim_names(&self) -> (res: (&String, &String))
        ensures
            res.0@ == self@.btn1_anim,
            res.1@ == self@.btn2_anim,
    {
        (&self.btn1_anim, &self.btn2_anim)
    }

    /// The two buttons' key events, whose actions the host reads.
    pub fn keys(&self) -> (res: (&KeyEvent, &KeyEvent))
        ensures
            res.0@ == self@.key1_toggle,
            res.1@ == self@.key2_toggle,
    {
        (&self.key1_toggle, &self.key2_toggle)
    }

    /// The lamp, whose brightness the host sets.
    pub fn light(&self) -> (res: &Light)
        ensures
            res@ == self@.btn_light,
    {
        &self.btn_light
    }

    /// The variables `DoorReqIn_<door>` the host reads for [`Self::tick`].
    pub fn request_vars(&self) -> (res: Vec<String>)
        ensures
            res@.map_values(|s: String| s@) == request_names("DoorReqIn_"@, self@.ai_door_btns),
    {
        request_vars("DoorReqIn_", &self.ai_door_btns)
    }

    /// Whether either button is pressed or a passenger requests to leave,
    /// given the keys' states and the requests read; `pressed` tells whether
    /// the first button is held, the second result whether the second is.
    pub fn tick(&mut self, state1: &ActionSnapshot, state2: &ActionSnapshot, requests: &Vec<bool>) -> (res: (PushButtonTick, bool))
        requires
            requests@.len() == old(self)@.ai_door_btns.len(),
        ensures
            res.0.pressed == key_pressed(old(self)@.key1_toggle, *state1),
            res.1 == key_pressed(old(self)@.key2_toggle, *state2),
            res.0.value == (res.0.pressed || res.1 || any_request(requests@)),
            writes_view(res.0.writes@) == clear_writes("DoorReqIn_"@, old(self)@.ai_door_btns),
            final(self)@ == (TwoButtonModel {
                key1_toggle: old(self)@.key1_toggle.after_query(),
                key2_toggle: old(self)@.key2_toggle.after_query(),
                ..old(self)@
            }),
    {
        let p1 = self.key1_toggle.is_pressed(state1);
        let p2 = self.key2_toggle.is_pressed(state2);
        let (req, writes) = take_requests("DoorReqIn_", &self.ai_door_btns, requests);
        (PushButtonTick { value: p1 || p2 || req, pressed: p1, writes }, p2)
    }
}

/// The abstract state of a push button without a lamp.
pub struct PushButtonModel {
    pub btn_anim: Seq<char>,
    pub key_toggle: KeyEventModel,
    pub ai_door_btns: Seq<usize>,
}

/// A push button that requests to enter; it does not take the passengers'
/// requests.
pub struct SimpleOutPushBtn {
    btn_anim: String,
    key_toggle: KeyEvent,
    ai_door_btns: Vec<usize>,
}

impl View for SimpleOutPushBtn {
    type V = PushButtonModel;

    closed spec fn view(&self) -> PushButtonModel {
        PushButtonModel { btn_anim: self.btn_anim@, key_toggle: self.key_toggle@, ai_door_btns: self.ai_door_btns@ }
    }
}

impl SimpleOutPushBtn {
    /// A button with the animation `anim_name` and the key event
    /// `event_toggle_name`.
    pub fn new(cab_side: Option<KeyEventCab>, anim_name: &str, event_toggle_name: &str, ai_doors: Vec<usize>) -> (res: Self)
        ensures
            res@ == (PushButtonModel {
                btn_anim: anim_name@,
                key_toggle: fresh_key(Some(event_toggle_name@), cab_side),
                ai_door_btns: ai_doors@,
            }),
    {
        Self {
            btn_anim: String::from_str(anim_name),
            key_toggle: KeyEvent::new(Some(event_toggle_name), cab_side),
            ai_door_btns: ai_doors,
        }
    }

    /// The name of the button's animation.
    pub fn anim_name(&self) -> (res: &String)
        ensures
            res@ == self@.btn_anim,
    {
        &self.btn_anim
    }

    /// Whether the button is pressed (and held), given the key's state.
    pub fn tick(&mut self, state: &ActionSnapshot) -> (res: bool)
        ensures
            res == key_pressed(old(self)@.key_toggle, *state),
            final(self)@ == (PushButtonModel { key_toggle: old(self)@.key_toggle.after_query(), ..old(self)@ }),
    {
        self.key_toggle.is_pressed(state)
    }
}

/// A push button that requests to enter, with a lamp.
pub struct LightedOutPushBtn {
    btn_anim: String,
    key_toggle: KeyEvent,
    btn_light: Light,
    ai_door_btns: Vec<usize>,
}

impl View for LightedOutPushBtn {
    type V = LightedButtonModel;

    closed spec fn view(&self) -> LightedButtonModel {
        LightedButtonModel {
            btn_anim: self.btn_anim@,
            key_toggle: self.key_toggle@,
            btn_light: self.btn_light@,
            ai_door_btns: self.ai_door_btns@,
        }
    }
}

impl LightedOutPushBtn {
    /// A button with the animation `anim_name`, the key event
    /// `event_toggle_name`, the lamp `light_name`, taking the passengers'
    /// requests at the given doors.
    pub fn new(
        cab_side: Option<KeyEventCab>,
        anim_name: &str,
        event_toggle_name: &str,
        light_name: &str,
        ai_doors: Vec<usize>,
    ) -> (res: Self)
        ensures
            res@ == (LightedButtonModel {
                btn_anim: anim_name@,
                key_toggle: fresh_key(Some(event_toggle_name@), cab_side),
                btn_light: Some(light_name@),
                ai_door_btns: ai_doors@,
            }),
    {
        Self {
            btn_anim: String::from_str(anim_name),
            key_toggle: KeyEvent::new(Some(event_toggle_name), cab_side),
            btn_light: Light::new(Some(light_name)),
            ai_door_btns: ai_doors,
        }
    }

    /// The name of the button's animation.
    pub fn anim_name(&self) -> (res: &String)
        ensures
            res@ == self@.btn_anim,
    {
        &self.btn_anim
    }

    /// The lamp, whose brightness the host sets.
    pub fn light(&self) -> (res: &Light)
        ensures
            res@ == self@.btn_light,
    {
        &self.btn_light
    }

    /// The variables `DoorReqOut_<door>` the host reads for [`Self::tick`].
    pub fn request_vars(&self) -> (res: Vec<String>)
        ensures
            res@.map_values(|s: String| s@) == request_names("DoorReqOut_"@, self@.ai_door_btns),
    {
        request_vars("DoorReqOut_", &self.ai_door_btns)
    }

    /// Whether the button is pressed or a passenger requests to enter, given
    /// the key's state and the requests read; also whether the button is
    /// held, and the writes that clear the requests.
    pub fn tick(&mut self, state: &ActionSnapshot, requests: &Vec<bool>) -> (res: PushButtonTick)
        requires
            requests@.len() == old(self)@.ai_door_btns.len(),
        ensures
            res.pressed == key_pressed(old(self)@.key_toggle, *state),
            res.value == (res.pressed || any_request(requests@)),
            writes_view(res.writes@) == clear_writes("DoorReqOut_"@, old(self)@.ai_door_btns),
            final(self)@ == (LightedButtonModel { key_toggle: old(self)@.key_toggle.after_query(), ..old(self)@ }),
    {
        let pressed = self.key_toggle.is_pressed(state);
        let (req, writes) = take_requests("DoorReqOut_", &self.ai_door_btns, requests);
        PushButtonTick { value: pressed || req, pressed, writes }
    }
}

/// The lamp flags of a red/green button: green as given, red as given or
/// while the button's press indication lasts.
pub open spec fn red_green_writes(green: Seq<char>, red: Seq<char>, green_light: bool, red_light: bool, timer_active: bool) -> Seq<(Seq<char>, VarValue)> {
    seq![(green, VarValue::Bool(green_light)), (red, VarValue::Bool(red_light || timer_active))]
}

/// The lamp flags of a red/green button.
fn lamp_writes(green_vis: &mut Visiblility, red_vis: &mut Visiblility, green_light: bool, red_light: bool, timer_active: bool) -> (res: Vec<VarWrite>)
    ensures
        writes_view(res@) == red_green_writes(old(green_vis)@, old(red_vis)@, green_light, red_light, timer_active),
        final(green_vis)@ == old(green_vis)@,
        final(red_vis)@ == old(red_vis)@,
{
    let mut out: Vec<VarWrite> = Vec::new();
    out.push(green_vis.set_visbility(green_light));
    out.push(red_vis.set_visbility(red_light || timer_active));
    assert(writes_view(out@) =~= red_green_writes(old(green_vis)@, old(red_vis)@, green_light, red_light, timer_active));
    out
}

/// The abstract state of a red/green request button.
pub struct RedGreenOutBtnModel {
    pub key_toggle: KeyEventModel,
    pub green_vis: Seq<char>,
    pub red_vis: Seq<char>,
    pub ai_door_btns: Seq<usize>,
}

/// A request button to enter with a green and a red lamp; the red lamp
/// also lights for a moment after each press. That moment is timed by the
/// host, which hands in whether it lasts.
pub struct RedGreenOutBtn {
    key_toggle: KeyEvent,
    green_vis: Visiblility,
    red_vis: Visiblility,
    ai_door_btns: Vec<usize>,
}

impl View for RedGreenOutBtn {
    type V = RedGreenOutBtnModel;

    closed spec fn view(&self) -> RedGreenOutBtnModel {
        RedGreenOutBtnModel {
            key_toggle: self.key_toggle@,
            green_vis: self.green_vis@,
            red_vis: self.red_vis@,
            ai_door_btns: self.ai_door_btns@,
        }
    }
}

impl RedGreenOutBtn {
    /// A button with the key event `event_toggle_name` and the lamps'
    /// visibility flags, taking the passengers' requests at the given doors.
    pub fn new(
        cab_side: Option<KeyEventCab>,
        event_toggle_name: &str,
        green_vis_name: &str,
        red_vis_name: &str,
        ai_doors: Vec<usize>,
    ) -> (res: Self)
        ensures
            res@ == (RedGreenOutBtnModel {
                key_toggle: fresh_key(Some(event_toggle_name@), cab_side),
                green_vis: green_vis_name@,
                red_vis: red_vis_name@,
                ai_door_btns: ai_doors@,
            }),
    {
        Self {
            key_toggle: KeyEvent::new(Some(event_toggle_name), cab_side),
            green_vis: Visiblility::new(green_vis_name),
            red_vis: Visiblility::new(red_vis_name),
            ai_door_btns: ai_doors,
        }
    }

    /// The variables `DoorReqOut_<door>` the host reads for [`Self::tick`].
    pub fn request_vars(&self) -> (res: Vec<String>)
        ensures
            res@.map_values(|s: String| s@) == request_names("DoorReqOut_"@, self@.ai_door_btns),
    {
        request_vars("DoorReqOut_", &self.ai_door_btns)
    }

    /// One cycle: sets the lamps (the red one also while the press
    /// indication lasts, `timer_active`), then reports whether the button is
    /// pressed or a passenger requests to enter. `pressed` restarts the
    /// press indication. The writes are the lamps', then the clearing of the
    /// requests.
    pub fn tick(
        &mut self,
        state: &ActionSnapshot,
        requests: &Vec<bool>,
        green_light: bool,
        red_light: bool,
        timer_active: bool,
    ) -> (res: PushButtonTick)
        requires
            requests@.len() == old(self)@.ai_door_btns.len(),
        ensures
            res.pressed == key_pressed(old(self)@.key_toggle, *state),
            res.value == (res.pressed || any_request(requests@)),
            writes_view(res.writes@) == red_green_writes(old(self)@.green_vis, old(self)@.red_vis, green_light, red_light, timer_active)
                + clear_writes("DoorReqOut_"@, old(self)@.ai_door_btns),
            final(self)@ == (RedGreenOutBtnModel { key_toggle: old(self)@.key_toggle.after_query(), ..old(self)@ }),
    {
        let pressed = self.key_toggle.is_pressed(state);
        let mut writes = lamp_writes(&mut self.green_vis, &mut self.red_vis, green_light, red_light, timer_active);
        let (req, mut clear) = take_requests("DoorReqOut_", &self.ai_door_btns, requests);
        let ghost lamps = writes@;
        let ghost cleared = clear@;
        writes.append(&mut clear);
        assert(writes@ =~= lamps + cleared);
        assert(writes_view(writes@) =~= writes_view(lamps) + writes_view(cleared));
        PushButtonTick { value: pressed || req, pressed, writes }
    }
}

/// The abstract state of a red/green button.
pub struct RedGreenBtnModel {
    pub value: bool,
    pub key: KeyEventModel,
    pub green_vis: Seq<char>,
    pub red_vis: Seq<char>,
}

/// A button with a green and a red lamp that holds its request while
/// pressed.
pub struct RedGreenBtn {
    value: bool,
    key: KeyEvent,
    green_vis: Visiblility,
    red_vis: Visiblility,
}

impl View for RedGreenBtn {
    type V = RedGreenBtnModel;

    closed spec fn view(&self) -> RedGreenBtnModel {
        RedGreenBtnModel { value: self.value, key: self.key@, green_vis: self.green_vis@, red_vis: self.red_vis@ }
    }
}

impl RedGreenBtn {
    /// A button with the key event `event_name` and the lamps' visibility
    /// flags, without a request.
    pub fn new(cab_side: Option<KeyEventCab>, event_name: &str, green_vis_name: &str, red_vis_name: &str) -> (res: Self)
        ensures
            res@ == (RedGreenBtnModel {
                value: false,
                key: fresh_key(Some(event_name@), cab_side),
                green_vis: green_vis_name@,
                red_vis: red_vis_name@,
            }),
    {
        Self {
            value: false,
            key: KeyEvent::new(Some(event_name), cab_side),
            green_vis: Visiblility::new(green_vis_name),
            red_vis: Visiblility::new(red_vis_name),
        }
    }

    /// One cycle: sets the lamps (the red one also while the press
    /// indication lasts), then takes the key: pressing sets the request and
    /// restarts the press indication (the result), releasing drops the
    /// request.
    pub fn tick(&mut self, state: &ActionSnapshot, green_light: bool, red_light: bool, timer_active: bool) -> (res: (bool, Vec<VarWrite>))
        ensures
            res.0 == key_pressed(old(self)@.key, *state),
            writes_view(res.1@) == red_green_writes(old(self)@.green_vis, old(self)@.red_vis, green_light, red_light, timer_active),
            final(self)@ == (RedGreenBtnModel {
                value: if key_released(old(self)@.key, *state) {
                    false
                } else {
                    res.0 || old(self)@.value
                },
                key: old(self)@.key.after_query(),
                ..old(self)@
            }),
    {
        let writes = lamp_writes(&mut self.green_vis, &mut self.red_vis, green_light, red_light, timer_active);
        let pressed = self.key.is_pressed(state);
        if pressed {
            self.value = true;
        }
        if self.key.is_released(state) {
            self.value = false;
        }
        (pressed, writes)
    }

    /// The request, where it is `allowed`.
    pub fn value(&mut self, allowed: bool) -> (res: bool)
        ensures
            res == (old(self)@.value && allowed),
            final(self)@ == old(self)@,
    {
        self.value && allowed
    }
}

/// The abstract state of a red/green button pair for a buggy and a
/// wheelchair.
pub struct RedGreenDuoBtnModel {
    pub buggy: bool,
    pub wheelchair: bool,
    pub key_buggy: KeyEventModel,
    pub key_wheelchair: KeyEventModel,
    pub green_vis: Seq<char>,
    pub red_vis: Seq<char>,
}

/// Two request buttons, for a buggy and for a wheelchair, that share a
/// green and a red lamp; each holds its request while pressed.
pub struct RedGreenDuoBtn {
    buggy: bool,
    wheelchair: bool,
    key_buggy: KeyEvent,
    key_wheelchair: KeyEvent,
    green_vis: Visiblility,
    red_vis: Visiblility,
}

impl View for RedGreenDuoBtn {
    type V = RedGreenDuoBtnModel;

    closed spec fn view(&self) -> RedGreenDuoBtnModel {
        RedGreenDuoBtnModel {
            buggy: self.buggy,
            wheelchair: self.wheelchair,
            key_buggy: self.key_buggy@,
            key_wheelchair: self.key_wheelchair@,
            green_vis: self.green_vis@,
            red_vis: self.red_vis@,
        }
    }
}

impl RedGreenDuoBtn {
    /// A pair with the two key events and the lamps' visibility flags,
    /// without a request.
    pub fn new(
        cab_side: Option<KeyEventCab>,
        event_buggy_name: &str,
        event_wheelchair_name: &str,
        green_vis_name: &str,
        red_vis_name: &str,
    ) -> (res: Self)
        ensures
            res@ == (RedGreenDuoBtnModel {
                buggy: false,
                wheelchair: false,
                key_buggy: fresh_key(Some(event_buggy_name@), cab_side),
                key_wheelchair: fresh_key(Some(event_wheelchair_name@), cab_side),
                green_vis: green_vis_name@,
                red_vis: red_vis_name@,
            }),
    {
        Self {
            buggy: false,
            wheelchair: false,
            key_buggy: KeyEvent::new(Some(event_buggy_name), cab_side),
            key_wheelchair: KeyEvent::new(Some(event_wheelchair_name), cab_side),
            green_vis: Visiblility::new(green_vis_name),
            red_vis: Visiblility::new(red_vis_name),
        }
    }

    /// One cycle: sets the lamps, then takes the keys. Pressing the buggy
    /// button sets the buggy request; otherwise pressing the wheelchair
    /// button sets the wheelchair request; either restarts the press
    /// indication (the result). Releasing a button drops its request.
    pub fn tick(
        &mut self,
        state_buggy: &ActionSnapshot,
        state_wheelchair: &ActionSnapshot,
        green_light: bool,
        red_light: bool,
        timer_active: bool,
    ) -> (res: (bool, Vec<VarWrite>))
        ensures
            res.0 == (key_pressed(old(self)@.key_buggy, *state_buggy) || key_pressed(old(self)@.key_wheelchair, *state_wheelchair)),
            writes_view(res.1@) == red_green_writes(old(self)@.green_vis, old(self)@.red_vis, green_light, red_light, timer_active),
            final(self)@ == (RedGreenDuoBtnModel {
                buggy: if key_released(old(self)@.key_buggy, *state_buggy) {
                    false
                } else {
                    key_pressed(old(self)@.key_buggy, *state_buggy) || old(self)@.buggy
                },
                wheelchair: if key_released(old(self)@.key_wheelchair, *state_wheelchair) {
                    false
                } else {
                    (!key_pressed(old(self)@.key_buggy, *state_buggy) && key_pressed(old(self)@.key_wheelchair, *state_wheelchair))
                        || old(self)@.wheelchair
                },
                key_buggy: old(self)@.key_buggy.after_query(),
                key_wheelchair: old(self)@.key_wheelchair.after_query(),
                ..old(self)@
            }),
    {
        let writes = lamp_writes(&mut self.green_vis, &mut self.red_vis, green_light, red_light, timer_active);
        let mut pressed = false;
        if self.key_buggy.is_pressed(state_buggy) {
            pressed = true;
            self.buggy = true;
        } else if self.key_wheelchair.is_pressed(state_wheelchair) {
            pressed = true;
            self.wheelchair = true;
        }
        if self.key_buggy.is_released(state_buggy) {
            self.buggy = false;
        }
        if self.key_wheelchair.is_released(state_wheelchair) {
            self.wheelchair = false;
        }
        (pressed, writes)
    }

    /// The wheelchair request.
    pub fn value_wheelchair(&mut self) -> (res: bool)
        ensures
            res == old(self)@.wheelchair,
            final(self)@ == old(self)@,
    {
        self.wheelchair
    }

    /// The buggy request.
    pub fn value_buggy(&mut self) -> (res: bool)
        ensures
            res == old(self)@.buggy,
            final(self)@ == old(self)@,
    {
        self.buggy
    }
}

/// A key is never pressed and released in the same frame: a red/green
/// button never sets and drops its request at once.
pub proof fn lemma_press_and_release_exclusive(k: KeyEventModel, state: ActionSnapshot)
    ensures
        !(key_pressed(k, state) && key_released(k, state)),
{
}

/// Taking the passengers' requests clears exactly the requests of the
/// button's doors: one write per door, in order, each turning that door's
/// request variable off.
pub proof fn lemma_requests_cleared_per_door(prefix: Seq<char>, doors: Seq<usize>)
    ensures
        clear_writes(prefix, doors).len() == doors.len(),
        forall|i: int| 0 <= i < doors.len()
            ==> #[trigger] clear_writes(prefix, doors)[i] == (indexed_name_spec(prefix, doors[i] as nat), VarValue::Bool(false)),
{
}

/// A request is seen exactly when some door's request is set.
pub proof fn lemma_any_request_sees_each(requests: Seq<bool>, i: int)
    requires
        0 <= i < requests.len(),
    ensures
        requests[i] ==> any_request(requests),
        !any_request(requests) ==> !requests[i],
        (forall|j: int| 0 <= j < requests.len() ==> !#[trigger] requests[j]) ==> !any_request(requests),
{
}

/// A key counts as pressed while its action is held or just pressed in a
/// matching cab, or while a value is injected; an action that is inactive
/// or just released, without injection, never counts as pressed, and a key
/// without an action name counts only through injection.
pub proof fn lemma_key_pressed_follows_action(k: KeyEventModel, state: ActionSnapshot)
    ensures
        k.name is Some && k.matching_cab(state)
            && (state.kind == ActionKind::Pressed || state.kind == ActionKind::JustPressed) ==> key_pressed(k, state),
        k.injection ==> key_pressed(k, state),
        !k.injection && (state.kind == ActionKind::Inactive || state.kind == ActionKind::JustReleased)
            ==> !key_pressed(k, state),
        k.name is None ==> key_pressed(k, state) == k.injection,
        key_released(k, state) ==> !k.injection && k.name is Some,
{
}

/// The lamps of a red/green button: green shows the green flag, red shows
/// the red flag or the press indication.
pub proof fn lemma_red_green_lamps(green: Seq<char>, red: Seq<char>, green_light: bool, red_light: bool, timer_active: bool)
    ensures
        red_green_writes(green, red, green_light, red_light, timer_active).contains((green, VarValue::Bool(green_light))),
        red_green_writes(green, red, green_light, red_light, timer_active).contains((red, VarValue::Bool(red_light || timer_active))),
        red_green_writes(green, red, green_light, red_light, timer_active).len() == 2,
{
    assert(red_green_writes(green, red, green_light, red_light, timer_active)[0] == (green, VarValue::Bool(green_light)));
    assert(red_green_writes(green, red, green_light, red_light, timer_active)[1] == (red, VarValue::Bool(red_light || timer_active)));
}

} // verus!
