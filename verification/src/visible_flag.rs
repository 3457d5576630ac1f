//! A named visibility flag of the vehicle model.
use vstd::prelude::*;
use crate::host_vars::{VarValue, VarWrite, bool_write, write_view};

verus! {

/// A visibility flag, stored in the script variable of its name.
#[derive(Debug)]
pub struct Visiblility {
    name: String,
}

impl View for Visiblility {
    type V = Seq<char>;

    closed spec fn view(&self) -> Seq<char> {
        self.name@
    }
}

impl Visiblility {
    /// A flag stored in the variable `name`.
    pub fn new(name: &str) -> (res: Self)
        ensures
            res@ == name@,
    {
        Self { name: String::from_str(name) }
    }

    /// A flag stored in the variable `name`, made visible at once: returns
    /// the flag and the write that shows it.
    pub fn new_visible(name: &str) -> (res: (Self, VarWrite))
        ensures
            res.0@ == name@,
            write_view(res.1) == (name@, VarValue::Bool(true)),
    {
        let mut s = Self { name: String::from_str(name) };
        let w = s.make_visible();
        (s, w)
    }

    /// The name of the flag's variable, which the host reads to check it.
    pub fn name(&self) -> (res: &String)
        ensures
            res@ == self@,
    {
        &self.name
    }

    /// Shows the flag.
    pub fn make_visible(&mut self) -> (res: VarWrite)
        ensures
            write_view(res) == (old(self)@, VarValue::Bool(true)),
            final(self)@ == old(self)@,
    {
        bool_write(self.name.clone(), true)
    }

    /// Shows (`true`) or hides (`false`) the flag.
    pub fn set_visbility(&mut self, value: bool) -> (res: VarWrite)
        ensures
            write_view(res) == (old(self)@, VarValue::Bool(value)),
            final(self)@ == old(self)@,
    {
        bool_write(self.name.clone(), value)
    }

    /// Hides the flag.
    pub fn make_invisible(&mut self) -> (res: VarWrite)
        ensures
            write_view(res) == (old(self)@, VarValue::Bool(false)),
            final(self)@ == old(self)@,
    {
        bool_write(self.name.clone(), false)
    }

    /// Toggles the flag, given its `current` value as read by the host.
    pub fn toggle_visibility(&mut self, current: bool) -> (res: VarWrite)
        ensures
            write_view(res) == (old(self)@, VarValue::Bool(!current)),
            final(self)@ == old(self)@,
    {
        bool_write(self.name.clone(), !current)
    }
}

} // verus!
