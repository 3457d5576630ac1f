//! Simulation settings that are not provided by the simulator yet and
//! therefore have fixed values.
use vstd::prelude::*;

verus! {

/// Whether the electric supply is simulated realistically; not provided
/// yet, so never.
pub fn realisitc_electric_supply() -> (res: bool)
    ensures
        !res,
{
    false
}

/// Whether the dead man's switch is enabled; not provided yet, so always.
pub fn deadmans_switch() -> (res: bool)
    ensures
        res,
{
    true
}

} // verus!
