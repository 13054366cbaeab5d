//! What the two ways of switching have in common.

use vstd::prelude::*;

verus! {

/// The metric of the routes that are laid over the default route.
pub const ROUTE_METRIC: u32 = 5;

/// What a consistency check at startup came to.
#[derive(Debug, Clone, Copy, PartialEq, Eq, Structural)]
pub enum ReconcileAction {
    /// The state was as expected.
    NoAction,
    /// The switch was made again, or taken over.
    ReEnabled,
    /// Something that should not be there was removed.
    CleanedUp,
}

} // verus!
