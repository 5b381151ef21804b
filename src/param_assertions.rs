//! The switch that decides whether a subsystem's parameter checks are on.
use vstd::prelude::*;

verus! {

/// Whether the parameter checks of a subsystem are on: its own flag or the
/// global enable flag turns them on, and the global disable flag overrides
/// both.
pub fn param_assertions_enabled(subsystem: bool, enable_all: bool, disable_all: bool) -> (r: bool)
    ensures
        r == ((subsystem || enable_all) && !disable_all),
{
    (subsystem || enable_all) && !disable_all
}

} // verus!
