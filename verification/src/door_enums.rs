//! Targets, sides and states of doors.
use vstd::prelude::*;

verus! {

/// What a door is asked to do, from forced closing to opening.
#[derive(Debug, Clone, Copy, PartialEq, Eq, PartialOrd, Ord, Structural)]
pub enum DoorTarget {
    /// Forced closing.
    Zwangssschliessen,
    /// Closed.
    Zu,
    /// Released for the passengers.
    Freigabe,
    /// Open.
    Oeffnen,
}

impl Default for DoorTarget {
    /// Closed.
    fn default() -> (res: Self)
        ensures
            res == DoorTarget::Zu,
    {
        DoorTarget::Zu
    }
}

/// The side(s) on which doors are served.
#[derive(Debug, Clone, Copy, PartialEq, Eq, Structural)]
pub enum DoorSide {
    /// No side.
    NoSide,
    Left,
    Right,
    Both,
}

/// Where a door stands.
#[derive(Debug, Clone, Copy, PartialEq, Eq, Structural)]
pub enum DoorState {
    Closed,
    /// Between closed and open.
    Other,
    Open,
}

impl Default for DoorState {
    /// Between closed and open.
    fn default() -> (res: Self)
        ensures
            res == DoorState::Other,
    {
        DoorState::Other
    }
}

} // verus!
