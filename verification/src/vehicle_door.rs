//! A passenger door of the vehicle, as the simulator's passengers see it.
//!
//! The door publishes whether it is open, whether entry and exit are
//! available and released, and reads the passengers' requests. Writes are
//! returned to the host; only changes are written.
use vstd::prelude::*;
use crate::host_vars::{VarValue, VarWrite, bool_write, indexed_name, indexed_name_spec, write_view, writes_view, opt_write_view};

verus! {

/// The abstract state of a door.
pub struct VehicleDoorModel {
    pub id: nat,
    pub entry_available: bool,
    pub exit_available: bool,
    pub open_last: bool,
    pub released_last: bool,
}

/// The write of `value` to the door variable `prefix` followed by the door's
/// index.
pub open spec fn door_write(prefix: Seq<char>, id: nat, value: bool) -> (Seq<char>, VarValue) {
    (indexed_name_spec(prefix, id), VarValue::Bool(value))
}

impl VehicleDoorModel {
    /// The writes of an open-state update: `DoorOpen_<id>` where the state
    /// changed, else nothing.
    pub open spec fn open_writes(self, open: bool) -> Seq<(Seq<char>, VarValue)> {
        if open != self.open_last {
            seq![door_write("DoorOpen_"@, self.id, open)]
        } else {
            Seq::empty()
        }
    }

    /// The writes of a release update: `DoorEntryReleased_<id>` and
    /// `DoorExitReleased_<id>` where the state changed, else nothing.
    pub open spec fn released_writes(self, state: bool) -> Seq<(Seq<char>, VarValue)> {
        if state != self.released_last {
            seq![
                door_write("DoorEntryReleased_"@, self.id, state),
                door_write("DoorExitReleased_"@, self.id, state),
            ]
        } else {
            Seq::empty()
        }
    }
}

/// A passenger door, by its index in the vehicle.
#[derive(Default, Debug)]
pub struct VehicleDoor {
    id: usize,
    entry_available: bool,
    exit_available: bool,
    open_last: bool,
    released_last: bool,
}

impl View for VehicleDoor {
    type V = VehicleDoorModel;

    closed spec fn view(&self) -> VehicleDoorModel {
        VehicleDoorModel {
            id: self.id as nat,
            entry_available: self.entry_available,
            exit_available: self.exit_available,
            open_last: self.open_last,
            released_last: self.released_last,
        }
    }
}

impl VehicleDoor {
    /// A closed, unreleased door with the given availability of entry and
    /// exit.
    pub fn new(index: usize, entry_init: bool, exit_init: bool) -> (res: Self)
        ensures
            res@ == (VehicleDoorModel {
                id: index as nat,
                entry_available: entry_init,
                exit_available: exit_init,
                open_last: false,
                released_last: false,
            }),
    {
        Self { id: index, entry_available: entry_init, exit_available: exit_init, open_last: false, released_last: false }
    }

    /// Sets `DoorOpen_<id>`.
    pub fn set_open(&mut self, open: bool) -> (res: VarWrite)
        ensures
            write_view(res) == door_write("DoorOpen_"@, old(self)@.id, open),
            final(self)@ == old(self)@,
    {
        bool_write(indexed_name("DoorOpen_", self.id), open)
    }

    /// Sets `DoorOpen_<id>` where the open state changed.
    pub fn update_open(&mut self, open: bool) -> (res: Option<VarWrite>)
        ensures
            opt_write_view(res) == old(self)@.open_writes(open),
            final(self)@ == (VehicleDoorModel { open_last: open, ..old(self)@ }),
    {
        if open != self.open_last {
            self.open_last = open;
            let w = self.set_open(open);
            assert(opt_write_view(Some(w)) =~= seq![door_write("DoorOpen_"@, old(self)@.id, open)]);
            Some(w)
        } else {
            None
        }
    }

    /// Makes entry available or not, and sets `DoorEntryAvailable_<id>`.
    pub fn set_entry_available(&mut self, state: bool) -> (res: VarWrite)
        ensures
            write_view(res) == door_write("DoorEntryAvailable_"@, old(self)@.id, state),
            final(self)@ == (VehicleDoorModel { entry_available: state, ..old(self)@ }),
    {
        self.entry_available = state;
        bool_write(indexed_name("DoorEntryAvailable_", self.id), state)
    }

    /// Makes exit available or not, and sets `DoorExitAvailable_<id>`.
    pub fn set_exit_available(&mut self, state: bool) -> (res: VarWrite)
        ensures
            write_view(res) == door_write("DoorExitAvailable_"@, old(self)@.id, state),
            final(self)@ == (VehicleDoorModel { exit_available: state, ..old(self)@ }),
    {
        self.exit_available = state;
        bool_write(indexed_name("DoorExitAvailable_", self.id), state)
    }

    /// Sets `DoorEntryReleased_<id>`.
    pub fn set_entry_released(&mut self, state: bool) -> (res: VarWrite)
        ensures
            write_view(res) == door_write("DoorEntryReleased_"@, old(self)@.id, state),
            final(self)@ == old(self)@,
    {
        bool_write(indexed_name("DoorEntryReleased_", self.id), state)
    }

    /// Sets `DoorExitReleased_<id>`.
    pub fn set_exit_released(&mut self, state: bool) -> (res: VarWrite)
        ensures
            write_view(res) == door_write("DoorExitReleased_"@, old(self)@.id, state),
            final(self)@ == old(self)@,
    {
        bool_write(indexed_name("DoorExitReleased_", self.id), state)
    }

    /// Releases entry and exit together (or withdraws the release) where the
    /// released state changed.
    pub fn update_released(&mut self, state: bool) -> (res: Vec<VarWrite>)
        ensures
            writes_view(res@) == old(self)@.released_writes(state),
            final(self)@ == (VehicleDoorModel { released_last: state, ..old(self)@ }),
    {
        let mut out: Vec<VarWrite> = Vec::new();
        if state != self.released_last {
            self.released_last = state;
            let a = self.set_entry_released(state);
            let b = self.set_exit_released(state);
            out.push(a);
            out.push(b);
        }
        assert(writes_view(out@) =~= (if state != old(self)@.released_last {
            seq![
                door_write("DoorEntryReleased_"@, old(self)@.id, state),
                door_write("DoorExitReleased_"@, old(self)@.id, state),
            ]
        } else {
            Seq::empty()
        }));
        out
    }

    /// The variable that holds a passenger's request to leave:
    /// `DoorReqIn_<id>`.
    pub fn request_in_var(&self) -> (res: String)
        ensures
            res@ == indexed_name_spec("DoorReqIn_"@, self@.id),
    {
        indexed_name("DoorReqIn_", self.id)
    }

    /// The variable that holds a passenger's request to enter:
    /// `DoorReqOut_<id>`.
    pub fn request_out_var(&self) -> (res: String)
        ensures
            res@ == indexed_name_spec("DoorReqOut_"@, self@.id),
    {
        indexed_name("DoorReqOut_", self.id)
    }

    /// The variable that tells whether the door area is occupied:
    /// `DoorOccupied_<id>`.
    pub fn occupied_var(&self) -> (res: String)
        ensures
            res@ == indexed_name_spec("DoorOccupied_"@, self@.id),
    {
        indexed_name("DoorOccupied_", self.id)
    }

    /// Whether entry is available.
    pub fn entry_available(&self) -> (res: bool)
        ensures
            res == self@.entry_available,
    {
        self.entry_available
    }

    /// Whether exit is available.
    pub fn exit_available(&self) -> (res: bool)
        ensures
            res == self@.exit_available,
    {
        self.exit_available
    }
}

/// Door variables are written only on changes: repeating an update with
/// the same state writes nothing.
pub proof fn lemma_door_updates_idempotent(m: VehicleDoorModel, open: bool, released: bool)
    ensures
        (VehicleDoorModel { open_last: open, ..m }).open_writes(open) == Seq::<(Seq<char>, VarValue)>::empty(),
        (VehicleDoorModel { released_last: released, ..m }).released_writes(released) == Seq::<(Seq<char>, VarValue)>::empty(),
{
}

/// An update publishes the new state: every write of an open-state update
/// carries the new open state, every write of a release update the new
/// release state, and a change is always written.
pub proof fn lemma_door_writes_carry_new_state(m: VehicleDoorModel, open: bool, released: bool)
    ensures
        forall|i: int| 0 <= i < m.open_writes(open).len() ==> (#[trigger] m.open_writes(open)[i]).1 == VarValue::Bool(open),
        forall|i: int| 0 <= i < m.released_writes(released).len()
            ==> (#[trigger] m.released_writes(released)[i]).1 == VarValue::Bool(released),
        open != m.open_last ==> m.open_writes(open).len() == 1,
        released != m.released_last ==> m.released_writes(released).len() == 2,
{
}

} // verus!
