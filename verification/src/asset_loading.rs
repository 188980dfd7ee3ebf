//! The handler of asset loads: it takes requests for assets while a load is
//! under way, and lets the application into the next mode once all of them
//! have resolved.

use crate::app_state::AppState;
use crate::asset_store::load_state_of;
use crate::gate::{failed_indices, failed_upto, Gate};
use crate::load_status::{all_resolved, LoadStatus};
use bevy::asset::{AssetServer, HandleUntyped};
use vstd::prelude::*;

verus! {

/// The procedure that requests the assets of one mode. The application runs
/// it; the handler only says which one is due.
#[derive(Debug, Copy, Clone, Eq, PartialEq, Hash, Structural)]
pub enum ModeLoader {
    Splash,
    TitleScreen,
    InGame,
}

/// The loader of each mode: the splash screen, the title screen and the game
/// have one, every other mode needs no assets of its own.
pub open spec fn loader_for(state: AppState) -> Option<ModeLoader> {
    match state {
        AppState::Splash => Some(ModeLoader::Splash),
        AppState::TitleScreen => Some(ModeLoader::TitleScreen),
        AppState::InGame => Some(ModeLoader::InGame),
        _ => None,
    }
}

/// How a textured material is blended over what lies behind it.
#[derive(Debug, Copy, Clone, Eq, PartialEq, Hash, Structural)]
pub enum AlphaMode {
    Opaque,
    Blend,
}

/// The blend mode of a textured material: `Blend` for a transparent texture,
/// `Opaque` for any other.
pub open spec fn alpha_mode_for(transparent: bool) -> AlphaMode {
    if transparent {
        AlphaMode::Blend
    } else {
        AlphaMode::Opaque
    }
}

/// The mode that waits for the queue to drain.
pub struct NextState {
    state: Option<AppState>,
}

impl NextState {
    /// The pending mode, if there is one.
    pub closed spec fn pending(&self) -> Option<AppState> {
        self.state
    }

    /// Returns the pending mode, if there is one.
    pub fn get(&self) -> (state: Option<AppState>)
        ensures
            state == self.pending(),
    {
        self.state
    }
}

impl Default for NextState {
    fn default() -> (next: NextState)
        ensures
            next.pending() is None,
    {
        NextState { state: None }
    }
}

/// The queue of handles that were requested and are not yet known to have
/// resolved, oldest first.
pub struct AssetsLoading {
    pub asset_handles: Vec<HandleUntyped>,
}

impl Default for AssetsLoading {
    fn default() -> (loading: AssetsLoading)
        ensures
            loading.asset_handles@.len() == 0,
    {
        AssetsLoading { asset_handles: Vec::new() }
    }
}

/// What one poll did.
pub struct PollReport {
    /// The mode that the poll made current, or `None` if it committed none.
    pub committed: Option<AppState>,
    /// The positions, in the queue as it stood before the poll, of the
    /// handles whose load was found to have failed, in rising order.
    pub failed: Vec<usize>,
    /// The handles that left the queue: all of them once every one is
    /// resolved, none before.
    pub released: Vec<HandleUntyped>,
}

/// The state gate: the current mode, the pending mode and the queue.
pub struct AssetsHandler {
    assets_loading: AssetsLoading,
    state: AppState,
    next_state: NextState,
}

impl View for AssetsHandler {
    type V = Gate;

    closed spec fn view(&self) -> Gate {
        Gate {
            mode: self.state,
            pending: self.next_state.state,
            queue: self.assets_loading.asset_handles@,
        }
    }
}

impl AssetsHandler {
    /// A gate in the `Initial` mode, with nothing pending and nothing queued.
    pub fn new() -> (handler: AssetsHandler)
        ensures
            handler@ == Gate::initial(),
            handler@.inv(),
    {
        let handler = AssetsHandler {
            assets_loading: AssetsLoading::default(),
            state: AppState::Initial,
            next_state: NextState::default(),
        };
        assert(handler@.queue =~= Seq::empty());
        handler
    }

    /// Says which loader requests the assets of `state`, if any does.
    pub fn queue_assets_for_state(state: AppState) -> (loader: Option<ModeLoader>)
        ensures
            loader == loader_for(state),
    {
        match state {
            AppState::Splash => Some(ModeLoader::Splash),
            AppState::TitleScreen => Some(ModeLoader::TitleScreen),
            AppState::InGame => Some(ModeLoader::InGame),
            _ => None,
        }
    }

    /// Starts the transition to `next_state`: the mode becomes `Loading`
    /// whatever it was, and `next_state` replaces any mode that was pending.
    /// Returns the loader of `next_state`, which is the caller's to run: it
    /// hands each asset it requests to one of the `add_` methods, before this
    /// call or after it.
    pub fn load(&mut self, next_state: AppState) -> (loader: Option<ModeLoader>)
        ensures
            final(self)@ == old(self)@.load(next_state),
            final(self)@.inv(),
            loader == loader_for(next_state),
    {
        self.state = AppState::Loading;
        self.next_state.state = Some(next_state);
        Self::queue_assets_for_state(next_state)
    }

    /// The current application mode.
    pub fn state(&self) -> (state: AppState)
        ensures
            state == self@.mode,
    {
        self.state
    }

    /// The mode that waits for the queue to drain, if a load is under way.
    pub fn next_state(&self) -> (next: Option<AppState>)
        ensures
            next == self@.pending,
    {
        self.next_state.get()
    }

    /// The handles that are still awaited, oldest first.
    pub fn assets_loading(&self) -> (loading: &AssetsLoading)
        ensures
            loading.asset_handles@ == self@.queue,
    {
        &self.assets_loading
    }

    /// Takes one handle that was requested from the store: it joins the end
    /// of the queue, in whatever mode the application is. Nothing is said here
    /// of how the load goes: that shows at a poll.
    fn add_asset(&mut self, requested: HandleUntyped)
        ensures
            final(self)@ == old(self)@.enqueue(requested),
            old(self)@.mode == AppState::Loading ==> final(self)@.inv(),
    {
        self.assets_loading.asset_handles.push(requested);
    }

    /// Registers the handle of a mesh that was requested from the store, to
    /// be awaited.
    pub fn add_mesh(&mut self, mesh: HandleUntyped)
        ensures
            final(self)@ == old(self)@.enqueue(mesh),
            old(self)@.mode == AppState::Loading ==> final(self)@.inv(),
    {
        self.add_asset(mesh);
    }

    /// Registers the handle of a font that was requested from the store, to
    /// be awaited.
    pub fn add_font(&mut self, font: HandleUntyped)
        ensures
            final(self)@ == old(self)@.enqueue(font),
            old(self)@.mode == AppState::Loading ==> final(self)@.inv(),
    {
        self.add_asset(font);
    }

    /// Registers the handle of an audio clip that was requested from the
    /// store, to be awaited.
    pub fn add_audio(&mut self, audio: HandleUntyped)
        ensures
            final(self)@ == old(self)@.enqueue(audio),
            old(self)@.mode == AppState::Loading ==> final(self)@.inv(),
    {
        self.add_asset(audio);
    }

    /// Registers the handle of a glb scene that was requested from the store,
    /// to be awaited.
    pub fn add_glb(&mut self, glb: HandleUntyped)
        ensures
            final(self)@ == old(self)@.enqueue(glb),
            old(self)@.mode == AppState::Loading ==> final(self)@.inv(),
    {
        self.add_asset(glb);
    }

    /// Registers the handle of an animation clip that was requested from the
    /// store, to be awaited.
    pub fn add_animation(&mut self, animation: HandleUntyped)
        ensures
            final(self)@ == old(self)@.enqueue(animation),
            old(self)@.mode == AppState::Loading ==> final(self)@.inv(),
    {
        self.add_asset(animation);
    }

    /// Registers the image of a textured material: the image was requested
    /// from the store and is awaited. Returns the blend mode with which the
    /// caller builds the material around the image; the material is complete
    /// as soon as it is built and is not awaited.
    pub fn add_material(&mut self, image: HandleUntyped, transparent: bool) -> (mode: AlphaMode)
        ensures
            final(self)@ == old(self)@.enqueue(image),
            old(self)@.mode == AppState::Loading ==> final(self)@.inv(),
            mode == alpha_mode_for(transparent),
    {
        self.add_asset(image);
        if transparent {
            AlphaMode::Blend
        } else {
            AlphaMode::Opaque
        }
    }

    /// One poll, given the status of each queued handle in queue order.
    /// While any handle is pending nothing changes. Once every handle has
    /// resolved, loaded or failed, the queue is cleared, the pending mode
    /// becomes the current mode, and nothing is pending any more. The report
    /// names the mode committed to, the handles that failed and the handles
    /// that left the queue.
    pub fn poll(&mut self, statuses: &Vec<LoadStatus>) -> (report: PollReport)
        requires
            statuses@.len() == old(self)@.queue.len(),
        ensures
            final(self)@ == old(self)@.poll(statuses@),
            old(self)@.inv() ==> final(self)@.inv(),
            report.committed == old(self)@.committed(statuses@),
            report.failed@ == failed_indices(statuses@),
            report.released@ == old(self)@.released(statuses@),
    {
        let mut ready = true;
        let mut failed: Vec<usize> = Vec::new();
        let n = statuses.len();
        let mut i: usize = 0;
        while i < n
            invariant
                0 <= i <= n,
                n == statuses@.len(),
                ready == all_resolved(statuses@.take(i as int)),
                failed@ == failed_upto(statuses@, i as int),
            decreases n - i,
        {
            match statuses[i] {
                LoadStatus::Failed => {
                    failed.push(i);
                },
                LoadStatus::Loaded => {},
                LoadStatus::Pending => {
                    ready = false;
                },
            }
            proof {
                let before = statuses@.take(i as int);
                let after = statuses@.take(i as int + 1);
                assert(after[i as int] == statuses@[i as int]);
                assert forall|j: int| 0 <= j < before.len() implies before[j] == after[j] by {}
            }
            i += 1;
        }
        assert(statuses@.take(n as int) =~= statuses@);
        let mut committed: Option<AppState> = None;
        let mut released: Vec<HandleUntyped> = Vec::new();
        if ready {
            std::mem::swap(&mut released, &mut self.assets_loading.asset_handles);
            committed = self.next_state.state;
            self.next_state.state = None;
            match committed {
                Some(next) => {
                    self.state = next;
                },
                None => {},
            }
            assert(self@.queue =~= Seq::empty());
        }
        PollReport { committed, failed, released }
    }
}

/// Asks the store for the status of every queued handle, in queue order, and
/// polls the handler with what it answers. Whatever the store answers, the
/// outcome is that of `poll` on one status for each queued handle; with an
/// empty queue the pending mode is committed at once.
pub fn check_assets_ready(assets_handler: &mut AssetsHandler, asset_server: &AssetServer) -> (report:
    PollReport)
    ensures
        exists|statuses: Seq<LoadStatus>|
            {
                &&& statuses.len() == old(assets_handler)@.queue.len()
                &&& final(assets_handler)@ == #[trigger] old(assets_handler)@.poll(statuses)
                &&& report.committed == old(assets_handler)@.committed(statuses)
                &&& report.failed@ == failed_indices(statuses)
                &&& report.released@ == old(assets_handler)@.released(statuses)
            },
        old(assets_handler)@.inv() ==> final(assets_handler)@.inv(),
{
    let mut statuses: Vec<LoadStatus> = Vec::new();
    let n = assets_handler.assets_loading.asset_handles.len();
    let mut i: usize = 0;
    while i < n
        invariant
            0 <= i <= n,
            n == assets_handler.assets_loading.asset_handles@.len(),
            *assets_handler == *old(assets_handler),
            statuses@.len() == i,
        decreases n - i,
    {
        let state = load_state_of(asset_server, &assets_handler.assets_loading.asset_handles[i]);
        statuses.push(LoadStatus::from_state(state));
        i += 1;
    }
    assets_handler.poll(&statuses)
}

} // verus!
