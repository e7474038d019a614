//! Update cadence.
use vstd::prelude::*;
use crate::settings::UpdateFrequency;

verus! {

/// Whether the configured cadence checks for updates at all.
pub fn should_check(freq: UpdateFrequency) -> (r: bool)
    ensures
        r == (freq != UpdateFrequency::Never),
{
    !matches!(freq, UpdateFrequency::Never)
}

} // verus!
