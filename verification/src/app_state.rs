//! The application's modes.

use vstd::prelude::*;

verus! {

/// The mutually exclusive phases the application can be in. Exactly one is
/// current at any time.
#[derive(Debug, Copy, Clone, Eq, PartialEq, Hash, Structural)]
pub enum AppState {
    Initial,
    Pause,
    Cutscene,
    Debug,
    TitleScreen,
    Options,
    InGame,
    Splash,
    LevelOver,
    ResetInGame,
    Loading,
}

impl AppState {
    /// Whether this is the transient mode held while assets are awaited.
    pub open spec fn is_loading(self) -> bool {
        self == AppState::Loading
    }

    /// Tests for the transient mode held while assets are awaited.
    #[verifier::when_used_as_spec(is_loading)]
    pub fn loading(self) -> (r: bool)
        ensures
            r == self.is_loading(),
    {
        self == AppState::Loading
    }
}

} // verus!
