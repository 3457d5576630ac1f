//! A light source, driven through its brightness variable.
use vstd::prelude::*;
use crate::key_event::{opt_name_view, opt_str_view, owned_name};

verus! {

/// A light with an optional brightness variable; without one, setting its
/// brightness does nothing. The brightness itself, a real number, is set
/// by the host.
#[derive(Debug)]
pub struct Light {
    name: Option<String>,
}

impl View for Light {
    type V = Option<Seq<char>>;

    closed spec fn view(&self) -> Option<Seq<char>> {
        opt_name_view(self.name)
    }
}

impl Light {
    /// A light with the given brightness variable, or none.
    pub fn new(name: Option<&str>) -> (res: Self)
        ensures
            res@ == opt_str_view(name),
    {
        Light { name: owned_name(name) }
    }

    /// The brightness variable, where there is one.
    pub fn name(&self) -> (res: &Option<String>)
        ensures
            opt_name_view(*res) == self@,
    {
        &self.name
    }
}

} // verus!
