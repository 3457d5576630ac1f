//! Power collection from a third rail.
use vstd::prelude::*;

verus! {

/// A side of the vehicle.
#[derive(Debug, Clone, Copy, PartialEq, Eq, Structural)]
pub enum Side {
    Left,
    Right,
}

/// A third-rail collector shoe, by its index and side. Its contact and
/// voltage are real-valued simulator variables, read by the host.
#[derive(Debug)]
pub struct ApiThirdRailCollector {
    id: usize,
    side: Side,
}

impl ApiThirdRailCollector {
    /// The collector `id` on the given side.
    pub fn new(id: usize, side: Side) -> (res: Self)
        ensures
            res.id() == id,
            res.side() == side,
    {
        Self { id, side }
    }

    /// The collector's index.
    pub closed spec fn id(&self) -> usize {
        self.id
    }

    /// The collector's side.
    pub closed spec fn side(&self) -> Side {
        self.side
    }

    /// The collector's index.
    pub fn index(&self) -> (res: usize)
        ensures
            res == self.id(),
    {
        self.id
    }

    /// The collector's side.
    pub fn collector_side(&self) -> (res: Side)
        ensures
            res == self.side(),
    {
        self.side
    }
}

} // verus!
