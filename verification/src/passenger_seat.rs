//! Passenger seats. Seat occupation is not simulated yet: seats report as
//! taken and the vehicle as empty.
use vstd::prelude::*;

verus! {

/// A named passenger seat.
#[derive(Default, Debug)]
pub struct PassengerSeat {
    name: String,
}

impl View for PassengerSeat {
    type V = Seq<char>;

    closed spec fn view(&self) -> Seq<char> {
        self.name@
    }
}

impl PassengerSeat {
    /// A seat with the given name.
    pub fn new(name: &str) -> (res: Self)
        ensures
            res@ == name@,
    {
        Self { name: String::from_str(name) }
    }

    /// Makes the seat available or unavailable; not simulated yet, so
    /// nothing changes.
    pub fn set_valid(&mut self, state: bool)
        ensures
            final(self)@ == old(self)@,
    {
    }

    /// Whether the seat is free; not simulated yet, so never.
    pub fn is_free(&self) -> (res: bool)
        ensures
            !res,
    {
        false
    }
}

/// The number of passengers on board; not simulated yet, so zero.
pub fn passengers_on_train() -> (res: u32)
    ensures
        res == 0,
{
    0
}

} // verus!
