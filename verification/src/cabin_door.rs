//! Cab doors with a lever.
use vstd::prelude::*;

verus! {

/// How a cab door with a lever locks.
#[derive(Debug, Clone, Copy, PartialEq, Eq, Structural)]
pub enum HandDoorLockingMode {
    /// With a latch.
    Latch,
    /// With a bolt.
    Bolt,
}

} // verus!
