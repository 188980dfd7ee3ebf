//! A load-then-transition gate: an application mode changes only once every
//! asset requested for the next mode has finished loading or has failed.
//! Beside it stand the state of the options menu, from which a game is
//! started, and the step from one level to the next.

pub mod app_state;
pub mod asset_loading;
pub mod asset_store;
pub mod gate;
pub mod laws;
pub mod level_over;
pub mod load_status;
pub mod options;
