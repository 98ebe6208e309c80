//! A mathematical stand-in for everything outside the workflows: how the
//! identity service and the fleet would answer. The laws of the workflows
//! are stated for every such world.

use crate::fleet::FleetOutcomeView;
use crate::model::{DisplayNameHistoryEntryView, GameIdentityView};
use crate::remote::WhitelistAction;
use crate::resolver::ResolveError;
use vstd::prelude::*;

verus! {

/// How the outside answers during one run of a workflow.
pub ghost struct World {
    /// The answer of the identity service to a lookup by display name.
    pub resolve: spec_fn(Seq<char>) -> Result<GameIdentityView, ResolveError>,
    /// The answer of the identity service to a request for the timeline of
    /// display names of a canonical identifier.
    pub history: spec_fn(Seq<char>) -> Result<Seq<DisplayNameHistoryEntryView>, ResolveError>,
    /// The outcome of a fan-out over the fleet: of the first of the run when
    /// the number is 0, of the second when it is 1, for the given action
    /// and display name. Two fan-outs for one name may end differently.
    pub fleet: spec_fn(int, WhitelistAction, Seq<char>) -> FleetOutcomeView,
}

} // verus!
