//! The schedule by which the adversaries alternate between patrol and
//! pursuit.

use vstd::prelude::*;

verus! {

/// The phase that governs what the adversaries outside the house aim at.
#[derive(Debug, Copy, Clone, PartialEq, Eq, Structural)]
pub enum Period {
    /// Each adversary retreats to its own corner.
    Scatter,
    /// Each adversary pursues its own target.
    Chase,
}

/// The phase at `timecum` milliseconds into a level: scatter for seven
/// seconds, chase for twenty, scatter for seven, chase for twenty, scatter
/// for five, then chase. The first level alone scatters once more, from
/// 79 to 84 seconds.
pub open spec fn spec_period_at(level: u32, timecum: u128) -> Period {
    if timecum < 7000 {
        Period::Scatter
    } else if timecum < 27000 {
        Period::Chase
    } else if timecum < 34000 {
        Period::Scatter
    } else if timecum < 54000 {
        Period::Chase
    } else if timecum < 59000 {
        Period::Scatter
    } else if level == 0 && 79000 <= timecum < 84000 {
        Period::Scatter
    } else {
        Period::Chase
    }
}

/// The phase at `timecum` milliseconds into level `level`.
#[verifier::when_used_as_spec(spec_period_at)]
pub fn period_at(level: u32, timecum: u128) -> (p: Period)
    ensures
        p == spec_period_at(level, timecum),
{
    if timecum < 7000 {
        Period::Scatter
    } else if timecum < 27000 {
        Period::Chase
    } else if timecum < 34000 {
        Period::Scatter
    } else if timecum < 54000 {
        Period::Chase
    } else if timecum < 59000 {
        Period::Scatter
    } else if level == 0 && 79000 <= timecum && timecum < 84000 {
        Period::Scatter
    } else {
        Period::Chase
    }
}

/// From 84 seconds on every level chases for good, and so does every level
/// but the first from 59 seconds on.
pub proof fn lemma_chase_in_the_end(level: u32, timecum: u128)
    requires
        timecum >= 84000 || (level != 0 && timecum >= 59000),
    ensures
        spec_period_at(level, timecum) == Period::Chase,
{
}

} // verus!
