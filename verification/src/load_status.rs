//! What the asset store reports of one handle, and how a gate reads it.

use vstd::prelude::*;

verus! {

/// The load state the asset store keeps for the source of a handle.
#[derive(Debug, Copy, Clone, Eq, PartialEq, Hash, Structural)]
pub enum LoadState {
    /// The store has no record of the asset.
    NotLoaded,
    /// The asset is being loaded.
    Loading,
    /// The asset has been loaded.
    Loaded,
    /// The asset failed to load.
    Failed,
    /// The asset was loaded once and has since been released.
    Unloaded,
}

/// The resolution status of one pending handle, as a gate sees it.
#[derive(Debug, Copy, Clone, Eq, PartialEq, Hash, Structural)]
pub enum LoadStatus {
    /// Not resolved yet: the transition has to wait.
    Pending,
    /// Resolved: the asset is available.
    Loaded,
    /// Resolved: the load failed, which is final and does not hold the
    /// transition back.
    Failed,
}

impl LoadStatus {
    /// A handle is resolved once its load has ended, well or badly.
    pub open spec fn is_resolved(self) -> bool {
        self != LoadStatus::Pending
    }

    /// Tests whether the load has ended, well or badly.
    #[verifier::when_used_as_spec(is_resolved)]
    pub fn resolved(self) -> (r: bool)
        ensures
            r == self.is_resolved(),
    {
        match self {
            LoadStatus::Pending => false,
            LoadStatus::Loaded => true,
            LoadStatus::Failed => true,
        }
    }

    /// The status that a load state of the store amounts to: `Loaded` and
    /// `Failed` are final, every other state is still pending.
    pub open spec fn of_state(state: LoadState) -> LoadStatus {
        match state {
            LoadState::Loaded => LoadStatus::Loaded,
            LoadState::Failed => LoadStatus::Failed,
            LoadState::NotLoaded => LoadStatus::Pending,
            LoadState::Loading => LoadStatus::Pending,
            LoadState::Unloaded => LoadStatus::Pending,
        }
    }

    /// Reads a load state of the store as a resolution status.
    pub fn from_state(state: LoadState) -> (status: LoadStatus)
        ensures
            status == Self::of_state(state),
    {
        match state {
            LoadState::Failed => LoadStatus::Failed,
            LoadState::Loaded => LoadStatus::Loaded,
            _ => LoadStatus::Pending,
        }
    }
}

/// Whether every status in `statuses` is resolved. This holds of the empty
/// sequence.
pub open spec fn all_resolved(statuses: Seq<LoadStatus>) -> bool {
    forall|i: int| 0 <= i < statuses.len() ==> (#[trigger] statuses[i]).is_resolved()
}

} // verus!
