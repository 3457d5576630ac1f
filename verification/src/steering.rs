//! The steering input of a road vehicle.
use vstd::prelude::*;

verus! {

/// A named steering controller. The steering value is a real number in the
/// simulator's `Steering` variable, read and set by the host.
#[derive(Default, Debug)]
pub struct Steering {
    name: String,
}

impl View for Steering {
    type V = Seq<char>;

    closed spec fn view(&self) -> Seq<char> {
        self.name@
    }
}

impl Steering {
    /// A steering controller with the given name.
    pub fn new(name: &str) -> (res: Self)
        ensures
            res@ == name@,
    {
        Self { name: String::from_str(name) }
    }

    /// The controller's name.
    pub fn name(&self) -> (res: &String)
        ensures
            res@ == self@,
    {
        &self.name
    }
}

} // verus!
