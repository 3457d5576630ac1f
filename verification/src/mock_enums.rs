//! States of vehicle systems as the simulator encodes them.
use vstd::prelude::*;

verus! {

/// The state of a coupler.
#[derive(Debug, Clone, Copy, PartialEq, Eq, Structural)]
pub enum CouplingState {
    /// Deactivated: cannot couple.
    Deactivated,
    /// Ready to couple.
    Ready,
    /// Coupled.
    Coupled,
}

impl CouplingState {
    /// The state of the simulator's code: `2` is coupled, `1` ready, any
    /// other value deactivated.
    pub fn from_code(code: u8) -> (res: Self)
        ensures
            res == (if code == 2 {
                CouplingState::Coupled
            } else if code == 1 {
                CouplingState::Ready
            } else {
                CouplingState::Deactivated
            }),
    {
        match code {
            2 => CouplingState::Coupled,
            1 => CouplingState::Ready,
            _ => CouplingState::Deactivated,
        }
    }

    /// The simulator's code of the state: coupled `2`, ready `1`,
    /// deactivated `0`.
    pub fn code(&self) -> (res: u8)
        ensures
            res == match *self {
                CouplingState::Coupled => 2u8,
                CouplingState::Ready => 1u8,
                CouplingState::Deactivated => 0u8,
            },
    {
        match self {
            CouplingState::Coupled => 2,
            CouplingState::Ready => 1,
            CouplingState::Deactivated => 0,
        }
    }
}

/// How far a vehicle is set up when the simulation starts, from cold and
/// dark to ready to drive; later stages have higher codes.
#[derive(Debug, Clone, Copy, PartialEq, Eq, PartialOrd, Structural)]
pub enum VehicleInitState {
    /// Everything is off.
    ColdAndDark,
    /// Configured, but not ready to drive.
    Setuped,
    /// Ready to drive.
    ReadyToDrive,
}

/// The code of an initialisation state.
pub open spec fn init_state_code(s: VehicleInitState) -> i32 {
    match s {
        VehicleInitState::ColdAndDark => 0,
        VehicleInitState::Setuped => 1,
        VehicleInitState::ReadyToDrive => 2,
    }
}

impl From<VehicleInitState> for i32 {
    /// The state's code: cold and dark `0`, set up `1`, ready to drive `2`.
    fn from(value: VehicleInitState) -> (res: i32) {
        match value {
            VehicleInitState::ColdAndDark => 0,
            VehicleInitState::Setuped => 1,
            VehicleInitState::ReadyToDrive => 2,
        }
    }
}

impl vstd::std_specs::convert::FromSpecImpl<VehicleInitState> for i32 {
    open spec fn obeys_from_spec() -> bool {
        true
    }

    open spec fn from_spec(v: VehicleInitState) -> i32 {
        init_state_code(v)
    }
}

impl VehicleInitState {
    /// The state of the simulator's code: `2` ready to drive, `1` set up,
    /// any other value cold and dark.
    pub fn from_code(code: i8) -> (res: Self)
        ensures
            res == (if code == 2 {
                VehicleInitState::ReadyToDrive
            } else if code == 1 {
                VehicleInitState::Setuped
            } else {
                VehicleInitState::ColdAndDark
            }),
    {
        match code {
            2 => VehicleInitState::ReadyToDrive,
            1 => VehicleInitState::Setuped,
            _ => VehicleInitState::ColdAndDark,
        }
    }

    /// The state's code.
    pub fn code(&self) -> (res: i32)
        ensures
            res == init_state_code(*self),
    {
        match self {
            VehicleInitState::ColdAndDark => 0,
            VehicleInitState::Setuped => 1,
            VehicleInitState::ReadyToDrive => 2,
        }
    }

    /// Whether this state is an earlier stage than `other`.
    pub fn precedes(&self, other: &VehicleInitState) -> (res: bool)
        ensures
            res == (init_state_code(*self) < init_state_code(*other)),
    {
        self.code() < other.code()
    }
}

/// Where the player starts.
#[derive(Debug, Clone, Copy, PartialEq, Eq, Structural)]
pub enum PlayerInitPos {
    /// In the front cab.
    CabFront,
    /// In the rear cab.
    CabRear,
    /// Not in this vehicle.
    NotHere,
}

impl PlayerInitPos {
    /// The position of the simulator's code: `1` front cab, `-1` rear cab,
    /// any other value not in this vehicle.
    pub fn from_code(code: i8) -> (res: Self)
        ensures
            res == (if code == 1 {
                PlayerInitPos::CabFront
            } else if code == -1 {
                PlayerInitPos::CabRear
            } else {
                PlayerInitPos::NotHere
            }),
    {
        match code {
            1 => PlayerInitPos::CabFront,
            -1 => PlayerInitPos::CabRear,
            _ => PlayerInitPos::NotHere,
        }
    }
}

/// The contact of a third-rail collector shoe with the rail.
#[derive(Debug, Clone, Copy, PartialEq, Eq, Structural)]
pub enum ThirdRailState {
    /// No contact.
    Disconnnected,
    /// Partial contact.
    PartwiseConnected,
    /// Full contact.
    Connected,
}

/// Decoding a coupler state's code gives the state back.
pub proof fn lemma_coupling_code_roundtrip(s: CouplingState)
    ensures
        (if (match s {
            CouplingState::Coupled => 2u8,
            CouplingState::Ready => 1u8,
            CouplingState::Deactivated => 0u8,
        }) == 2 {
            CouplingState::Coupled
        } else if (match s {
            CouplingState::Coupled => 2u8,
            CouplingState::Ready => 1u8,
            CouplingState::Deactivated => 0u8,
        }) == 1 {
            CouplingState::Ready
        } else {
            CouplingState::Deactivated
        }) == s,
{
}

/// The initialisation stages are ordered by their codes: cold and dark
/// before set up before ready to drive.
pub proof fn lemma_init_states_ordered()
    ensures
        init_state_code(VehicleInitState::ColdAndDark) < init_state_code(VehicleInitState::Setuped),
        init_state_code(VehicleInitState::Setuped) < init_state_code(VehicleInitState::ReadyToDrive),
{
}

} // verus!
