//! A typed handle to a named script variable.
use vstd::prelude::*;
use std::marker::PhantomData;

verus! {

/// A handle to the script variable `name`, holding values of type `T`.
/// Reading and writing the variable is done by the host.
#[derive(Debug)]
pub struct Variable<T> {
    name: String,
    _phantom: PhantomData<T>,
}

impl<T> View for Variable<T> {
    type V = Seq<char>;

    closed spec fn view(&self) -> Seq<char> {
        self.name@
    }
}

impl<T> Variable<T> {
    /// A handle to the variable `name`.
    pub fn new(name: &str) -> (res: Self)
        ensures
            res@ == name@,
    {
        Self { name: String::from_str(name), _phantom: PhantomData }
    }

    /// The variable's name.
    pub fn name(&self) -> (res: &String)
        ensures
            res@ == self@,
    {
        &self.name
    }
}

} // verus!
