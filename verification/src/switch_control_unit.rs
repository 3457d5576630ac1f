//! A priority-based control unit for track switches.
//!
//! Several senders (the vehicle itself and on-board modules) request a
//! switch direction. The unit keeps the latest request of each sender and
//! follows the highest-priority sender that requests something other than
//! `Off`.
use vstd::prelude::*;

verus! {

/// The source of a switch request.
#[derive(Debug, Copy, Clone, Hash, PartialEq, Eq, Structural)]
pub enum SwitchSender {
    /// A control module, by its id.
    Modul(u32),
    /// The vehicle itself.
    Vehicle,
}

/// The requested direction of a switch.
#[derive(Debug, Default, Copy, Clone, PartialEq, Eq, Structural)]
pub enum RoutingDirection {
    Left,
    Right,
    Straight,
    /// No request (reset).
    #[default]
    Off,
}

/// A routing code (train control number) sent to the track.
#[derive(Debug, Clone, Copy, PartialEq, Eq)]
pub struct RoutingCode {
    pub value: u32,
}

/// A manual route request (not evaluated yet).
#[derive(Debug, Clone, Copy, PartialEq, Eq)]
pub struct RoutingRequest {}

/// A message of the passenger information bus that the unit listens to.
#[derive(Debug, Clone, Copy, PartialEq, Eq)]
pub enum RoutingMessage {
    Request(RoutingRequest),
    Direction(RoutingDirection),
    Code(RoutingCode),
}

/// The direction the unit follows: the request of the first sender in
/// `priorities` whose request is not `Off`, or `Off` where there is none.
pub open spec fn switch_target(priorities: Seq<SwitchSender>, values: Map<SwitchSender, RoutingDirection>) -> RoutingDirection
    decreases priorities.len(),
{
    if priorities.len() == 0 {
        RoutingDirection::Off
    } else if values.contains_key(priorities[0]) && values[priorities[0]] != RoutingDirection::Off {
        values[priorities[0]]
    } else {
        switch_target(priorities.drop_first(), values)
    }
}

/// Whether `sender` has a request other than `Off`.
pub open spec fn requests(values: Map<SwitchSender, RoutingDirection>, sender: SwitchSender) -> bool {
    values.contains_key(sender) && values[sender] != RoutingDirection::Off
}

/// The abstract state of the unit.
pub struct SwitchControlModel {
    pub priorities: Seq<SwitchSender>,
    pub values: Map<SwitchSender, RoutingDirection>,
    pub current: RoutingDirection,
    pub routing_code: u32,
    pub sensor_id: u32,
    pub trigger_zone: bool,
    pub switch_request_active: bool,
    pub signal_request_active: bool,
    pub routing_request_active: bool,
}

/// The switch control unit.
pub struct SwtichControlUnit {
    priorities: Vec<SwitchSender>,
    values: Vec<(SwitchSender, RoutingDirection)>,
    current: RoutingDirection,
    routing_code: u32,
    sensor_id: u32,
    trigger_zone: bool,
    switch_request_active: bool,
    signal_request_active: bool,
    routing_request_active: bool,
}

/// The map of an association list whose keys are distinct.
pub open spec fn assoc_map(entries: Seq<(SwitchSender, RoutingDirection)>) -> Map<SwitchSender, RoutingDirection> {
    Map::new(
        |k: SwitchSender| exists|i: int| 0 <= i < entries.len() && entries[i].0 == k,
        |k: SwitchSender| entries[choose|i: int| 0 <= i < entries.len() && entries[i].0 == k].1,
    )
}

/// No sender occurs twice in an association list.
pub open spec fn distinct_keys(entries: Seq<(SwitchSender, RoutingDirection)>) -> bool {
    forall|i: int, j: int| 0 <= i < entries.len() && 0 <= j < entries.len() && i != j
        ==> #[trigger] entries[i].0 != #[trigger] entries[j].0
}

impl View for SwtichControlUnit {
    type V = SwitchControlModel;

    closed spec fn view(&self) -> SwitchControlModel {
        SwitchControlModel {
            priorities: self.priorities@,
            values: assoc_map(self.values@),
            current: self.current,
            routing_code: self.routing_code,
            sensor_id: self.sensor_id,
            trigger_zone: self.trigger_zone,
            switch_request_active: self.switch_request_active,
            signal_request_active: self.signal_request_active,
            routing_request_active: self.routing_request_active,
        }
    }
}

impl SwtichControlUnit {
    /// The unit's invariant: every sender holds at most one request.
    pub closed spec fn wf(&self) -> bool {
        distinct_keys(self.values@)
    }

    /// A unit with the given priorities (earlier is higher) that watches the
    /// given sensor. No sender has a request yet.
    pub fn new(priorities: Vec<SwitchSender>, sensor_id: u32) -> (res: Self)
        ensures
            res.wf(),
            res@ == (SwitchControlModel {
                priorities: priorities@,
                values: Map::empty(),
                current: RoutingDirection::Off,
                routing_code: 0,
                sensor_id,
                trigger_zone: false,
                switch_request_active: false,
                signal_request_active: false,
                routing_request_active: false,
            }),
    {
        let res = Self {
            priorities,
            values: Vec::new(),
            current: RoutingDirection::Off,
            routing_code: 0,
            sensor_id,
            trigger_zone: false,
            switch_request_active: false,
            signal_request_active: false,
            routing_request_active: false,
        };
        assert(assoc_map(res.values@) =~= Map::empty());
        res
    }

    /// Takes over the current request activity of the cycle.
    pub fn tick(&mut self, switch_request_active: bool, signal_request_active: bool, routing_request_active: bool)
        requires
            old(self).wf(),
        ensures
            final(self).wf(),
            final(self)@ == (SwitchControlModel {
                switch_request_active,
                signal_request_active,
                routing_request_active,
                ..old(self)@
            }),
    {
        self.switch_request_active = switch_request_active;
        self.signal_request_active = signal_request_active;
        self.routing_request_active = routing_request_active;
    }

    /// The request of `sender`, where it has one.
    fn lookup(&self, sender: SwitchSender) -> (res: Option<RoutingDirection>)
        requires
            self.wf(),
        ensures
            res matches Some(d) ==> self@.values.contains_key(sender) && self@.values[sender] == d,
            res is None ==> !self@.values.contains_key(sender),
    {
        let n = self.values.len();
        for i in 0..n
            invariant
                n == self.values@.len(),
                self.wf(),
                forall|j: int| 0 <= j < i ==> self.values@[j].0 != sender,
        {
            if self.values[i].0 == sender {
                let d = self.values[i].1;
                proof {
                    let entries = self.values@;
                    assert(entries[i as int].0 == sender);
                    let k = choose|k: int| 0 <= k < entries.len() && entries[k].0 == sender;
                    assert(distinct_keys(entries));
                    assert(k == i);
                }
                return Some(d);
            }
        }
        None
    }

    /// The direction to follow: the request of the highest-priority sender
    /// that requests something other than `Off`, or `Off`.
    pub fn get_current_switch_target(&self) -> (res: RoutingDirection)
        requires
            self.wf(),
        ensures
            res == switch_target(self@.priorities, self@.values),
    {
        let n = self.priorities.len();
        let ghost prios = self.priorities@;
        let ghost values = self@.values;
        assert(prios.skip(0) =~= prios);
        for i in 0..n
            invariant
                n == prios.len(),
                prios == self.priorities@,
                values == self@.values,
                self.wf(),
                switch_target(prios, values) == switch_target(prios.skip(i as int), values),
        {
            let sender = self.priorities[i];
            proof {
                assert(prios.skip(i as int).drop_first() =~= prios.skip(i + 1));
                assert(prios.skip(i as int)[0] == sender);
            }
            match self.lookup(sender) {
                Some(val) => {
                    if val != RoutingDirection::Off {
                        return val;
                    }
                },
                None => {},
            }
        }
        proof {
            assert(prios.skip(n as int).len() == 0);
        }
        RoutingDirection::Off
    }

    /// Records `dir` as the request of `sender`, replacing its earlier one.
    fn set_request(&mut self, sender: SwitchSender, dir: RoutingDirection)
        requires
            old(self).wf(),
        ensures
            final(self).wf(),
            final(self)@ == (SwitchControlModel { values: old(self)@.values.insert(sender, dir), ..old(self)@ }),
    {
        let ghost old_entries = self.values@;
        let n = self.values.len();
        let mut found: Option<usize> = None;
        for i in 0..n
            invariant
                n == self.values@.len(),
                found is None ==> forall|j: int| 0 <= j < i ==> self.values@[j].0 != sender,
                found matches Some(k) ==> k < n && self.values@[k as int].0 == sender,
        {
            if found.is_none() && self.values[i].0 == sender {
                found = Some(i);
            }
        }
        match found {
            Some(k) => {
                self.values.set(k, (sender, dir));
                proof {
                    let entries = self.values@;
                    assert(entries == old_entries.update(k as int, (sender, dir)));
                    assert(distinct_keys(entries)) by {
                        assert forall|i: int, j: int| 0 <= i < entries.len() && 0 <= j < entries.len() && i != j
                            implies #[trigger] entries[i].0 != #[trigger] entries[j].0 by {
                            assert(entries[i].0 == old_entries[i].0);
                            assert(entries[j].0 == old_entries[j].0);
                        }
                    }
                    assert forall|key: SwitchSender| #![auto] assoc_map(entries).contains_key(key) == assoc_map(old_entries).insert(sender, dir).contains_key(key) by {
                        if exists|i: int| 0 <= i < old_entries.len() && old_entries[i].0 == key {
                            let i = choose|i: int| 0 <= i < old_entries.len() && old_entries[i].0 == key;
                            assert(entries[i].0 == key);
                        }
                        if exists|i: int| 0 <= i < entries.len() && entries[i].0 == key {
                            let i = choose|i: int| 0 <= i < entries.len() && entries[i].0 == key;
                            assert(old_entries[i].0 == key);
                        }
                    }
                    assert forall|key: SwitchSender| #[trigger] assoc_map(entries).contains_key(key)
                        implies assoc_map(entries)[key] == assoc_map(old_entries).insert(sender, dir)[key] by {
                        let i = choose|i: int| 0 <= i < entries.len() && entries[i].0 == key;
                        if key == sender {
                            assert(i == k);
                        } else {
                            let i2 = choose|i: int| 0 <= i < old_entries.len() && old_entries[i].0 == key;
                            assert(entries[i2].0 == key);
                            assert(i2 == i);
                        }
                    }
                    assert(assoc_map(entries) =~= assoc_map(old_entries).insert(sender, dir));
                }
            },
            None => {
                self.values.push((sender, dir));
                proof {
                    let entries = self.values@;
                    assert(entries == old_entries.push((sender, dir)));
                    assert(distinct_keys(entries)) by {
                        assert forall|i: int, j: int| 0 <= i < entries.len() && 0 <= j < entries.len() && i != j
                            implies #[trigger] entries[i].0 != #[trigger] entries[j].0 by {
                            if i < old_entries.len() && j < old_entries.len() {
                                assert(entries[i] == old_entries[i]);
                                assert(entries[j] == old_entries[j]);
                            }
                        }
                    }
                    assert forall|key: SwitchSender| #![auto] assoc_map(entries).contains_key(key) == assoc_map(old_entries).insert(sender, dir).contains_key(key) by {
                        if exists|i: int| 0 <= i < old_entries.len() && old_entries[i].0 == key {
                            let i = choose|i: int| 0 <= i < old_entries.len() && old_entries[i].0 == key;
                            assert(entries[i].0 == key);
                        }
                        if key == sender {
                            assert(entries[old_entries.len() as int].0 == key);
                        }
                        if exists|i: int| 0 <= i < entries.len() && entries[i].0 == key {
                            let i = choose|i: int| 0 <= i < entries.len() && entries[i].0 == key;
                            if i < old_entries.len() {
                                assert(old_entries[i].0 == key);
                            }
                        }
                    }
                    assert forall|key: SwitchSender| #[trigger] assoc_map(entries).contains_key(key)
                        implies assoc_map(entries)[key] == assoc_map(old_entries).insert(sender, dir)[key] by {
                        let i = choose|i: int| 0 <= i < entries.len() && entries[i].0 == key;
                        if key == sender {
                            assert(entries[old_entries.len() as int].0 == key);
                            assert(i == old_entries.len());
                        } else {
                            let i2 = choose|i: int| 0 <= i < old_entries.len() && old_entries[i].0 == key;
                            assert(entries[i2].0 == key);
                            assert(i2 == i);
                        }
                    }
                    assert(assoc_map(entries) =~= assoc_map(old_entries).insert(sender, dir));
                }
            },
        }
    }

    /// Handles a bus message: a direction is the vehicle's request and the
    /// unit then follows the highest-priority request; a routing code is
    /// taken over; a route request changes nothing yet.
    pub fn on_message(&mut self, msg: &RoutingMessage)
        requires
            old(self).wf(),
        ensures
            final(self).wf(),
            final(self)@ == match *msg {
                RoutingMessage::Request(_) => old(self)@,
                RoutingMessage::Direction(d) => {
                    let values = old(self)@.values.insert(SwitchSender::Vehicle, d);
                    SwitchControlModel {
                        values,
                        current: switch_target(old(self)@.priorities, values),
                        ..old(self)@
                    }
                },
                RoutingMessage::Code(c) => SwitchControlModel { routing_code: c.value, ..old(self)@ },
            },
    {
        match msg {
            RoutingMessage::Request(_) => {},
            RoutingMessage::Direction(d) => {
                self.set_request(SwitchSender::Vehicle, *d);
                self.current = self.get_current_switch_target();
            },
            RoutingMessage::Code(c) => {
                self.routing_code = c.value;
            },
        }
    }

    /// A vehicle entered (`entering`) or left a sensor's zone; only the
    /// unit's own sensor counts.
    pub fn on_trigger(&mut self, sensor: u32, entering: bool)
        requires
            old(self).wf(),
        ensures
            final(self).wf(),
            final(self)@ == (if sensor == old(self)@.sensor_id {
                SwitchControlModel { trigger_zone: entering, ..old(self)@ }
            } else {
                old(self)@
            }),
    {
        if sensor == self.sensor_id {
            self.trigger_zone = entering;
        }
    }

    /// The direction the unit currently follows.
    pub fn current(&self) -> (res: RoutingDirection)
        ensures
            res == self@.current,
    {
        self.current
    }
}

/// The followed direction is decided by priority: where it is not `Off`, it
/// is the request of some listed sender, and no sender listed before that
/// one requests anything; where it is `Off`, no listed sender requests
/// anything.
pub proof fn lemma_switch_target_is_highest_priority(priorities: Seq<SwitchSender>, values: Map<SwitchSender, RoutingDirection>)
    ensures
        switch_target(priorities, values) != RoutingDirection::Off ==> exists|i: int|
            0 <= i < priorities.len()
            && requests(values, priorities[i])
            && values[priorities[i]] == switch_target(priorities, values)
            && forall|j: int| 0 <= j < i ==> !requests(values, #[trigger] priorities[j]),
        switch_target(priorities, values) == RoutingDirection::Off ==>
            forall|i: int| 0 <= i < priorities.len() ==> !requests(values, #[trigger] priorities[i]),
    decreases priorities.len(),
{
    if priorities.len() > 0 {
        let rest = priorities.drop_first();
        lemma_switch_target_is_highest_priority(rest, values);
        if !requests(values, priorities[0]) {
            if switch_target(priorities, values) != RoutingDirection::Off {
                let i = choose|i: int|
                    0 <= i < rest.len()
                    && requests(values, rest[i])
                    && values[rest[i]] == switch_target(rest, values)
                    && forall|j: int| 0 <= j < i ==> !requests(values, #[trigger] rest[j]);
                assert(priorities[i + 1] == rest[i]);
                assert forall|j: int| 0 <= j < i + 1 implies !requests(values, #[trigger] priorities[j]) by {
                    if j > 0 {
                        assert(priorities[j] == rest[j - 1]);
                    }
                }
            } else {
                assert forall|i: int| 0 <= i < priorities.len() implies !requests(values, #[trigger] priorities[i]) by {
                    if i > 0 {
                        assert(priorities[i] == rest[i - 1]);
                    }
                }
            }
        }
    }
}

} // verus!
