//! The asset store, as far as a gate consumes it: handles to carry, and
//! the load state of a handle to ask for.

use crate::load_status::LoadState;
use vstd::prelude::*;

verus! {

/// `bevy::asset::AssetServer`, the store that loads assets in the
/// background. Opaque here: it is only handed to the calls below.
#[verifier::external_type_specification]
#[verifier::external_body]
pub struct ExAssetServer(bevy::asset::AssetServer);

/// `bevy::asset::HandleUntyped`, a handle to one asset of any type. Opaque
/// here: a gate keeps handles and hands them back to the store.
#[verifier::external_type_specification]
#[verifier::external_body]
pub struct ExHandleUntyped(bevy::asset::HandleUntyped);

/// Calls `AssetServer::get_load_state` for one handle and hands the state
/// over variant by variant. Nothing is claimed of the result: it depends on
/// how far the background load has come.
#[verifier::external_body]
pub(crate) fn load_state_of(
    server: &bevy::asset::AssetServer,
    handle: &bevy::asset::HandleUntyped,
) -> LoadState {
    match server.get_load_state(handle) {
        bevy::asset::LoadState::NotLoaded => LoadState::NotLoaded,
        bevy::asset::LoadState::Loading => LoadState::Loading,
        bevy::asset::LoadState::Loaded => LoadState::Loaded,
        bevy::asset::LoadState::Failed => LoadState::Failed,
        bevy::asset::LoadState::Unloaded => LoadState::Unloaded,
    }
}

} // verus!
