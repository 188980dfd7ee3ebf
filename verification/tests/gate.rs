use bevy::asset::{HandleId, HandleUntyped};
use loading_gate::app_state::AppState;
use loading_gate::asset_loading::{
    AlphaMode, AssetsHandler, AssetsLoading, ModeLoader, NextState,
};
use loading_gate::load_status::{LoadState, LoadStatus};

fn handle(path: &str) -> HandleUntyped {
    HandleUntyped::weak(HandleId::from(path))
}

fn queued(handler: &AssetsHandler) -> Vec<HandleUntyped> {
    handler.assets_loading().asset_handles.clone()
}

const ALL_MODES: [AppState; 11] = [
    AppState::Initial,
    AppState::Pause,
    AppState::Cutscene,
    AppState::Debug,
    AppState::TitleScreen,
    AppState::Options,
    AppState::InGame,
    AppState::Splash,
    AppState::LevelOver,
    AppState::ResetInGame,
    AppState::Loading,
];

#[test]
fn new_gate_is_initial_and_idle() {
    let handler = AssetsHandler::new();
    assert_eq!(handler.state(), AppState::Initial);
    assert_eq!(handler.next_state(), None);
    assert!(handler.assets_loading().asset_handles.is_empty());
}

#[test]
fn defaults_are_empty() {
    assert_eq!(NextState::default().get(), None);
    assert!(AssetsLoading::default().asset_handles.is_empty());
}

#[test]
fn load_in_game_waits_for_all_three_handles() {
    let mut handler = AssetsHandler::new();
    let loader = handler.load(AppState::InGame);
    assert_eq!(loader, Some(ModeLoader::InGame));
    handler.add_mesh(handle("models/football.glb"));
    handler.add_audio(handle("audio/blip.ogg"));
    handler.add_font(handle("fonts/monogram.ttf"));
    assert_eq!(handler.state(), AppState::Loading);
    assert_eq!(handler.assets_loading().asset_handles.len(), 3);

    let report = handler.poll(&vec![LoadStatus::Pending, LoadStatus::Loaded, LoadStatus::Loaded]);
    assert_eq!(report.committed, None);
    assert!(report.failed.is_empty());
    assert!(report.released.is_empty());
    assert_eq!(handler.state(), AppState::Loading);
    assert_eq!(handler.next_state(), Some(AppState::InGame));
    assert_eq!(handler.assets_loading().asset_handles.len(), 3);

    let report = handler.poll(&vec![LoadStatus::Loaded, LoadStatus::Loaded, LoadStatus::Loaded]);
    assert_eq!(report.committed, Some(AppState::InGame));
    assert!(report.failed.is_empty());
    assert_eq!(
        report.released,
        vec![handle("models/football.glb"), handle("audio/blip.ogg"), handle("fonts/monogram.ttf")]
    );
    assert_eq!(handler.state(), AppState::InGame);
    assert_eq!(handler.next_state(), None);
    assert!(handler.assets_loading().asset_handles.is_empty());
}

#[test]
fn load_splash_without_handles_commits_on_next_poll() {
    let mut handler = AssetsHandler::new();
    let loader = handler.load(AppState::Splash);
    assert_eq!(loader, Some(ModeLoader::Splash));
    assert_eq!(handler.state(), AppState::Loading);
    assert_eq!(handler.next_state(), Some(AppState::Splash));
    let report = handler.poll(&vec![]);
    assert_eq!(report.committed, Some(AppState::Splash));
    assert_eq!(handler.state(), AppState::Splash);
    assert_eq!(handler.next_state(), None);
}

#[test]
fn every_load_enters_loading() {
    let mut handler = AssetsHandler::new();
    for mode in ALL_MODES {
        handler.load(mode);
        assert_eq!(handler.state(), AppState::Loading);
        assert_eq!(handler.next_state(), Some(mode));
    }
}

#[test]
fn every_mode_without_assets_is_reached_after_one_poll() {
    for mode in ALL_MODES {
        let mut handler = AssetsHandler::new();
        handler.load(mode);
        let report = handler.poll(&vec![]);
        assert_eq!(report.committed, Some(mode));
        assert_eq!(handler.state(), mode);
        assert_eq!(handler.next_state(), None);
    }
}

#[test]
fn only_three_modes_have_a_loader() {
    for mode in ALL_MODES {
        let expected = match mode {
            AppState::Splash => Some(ModeLoader::Splash),
            AppState::TitleScreen => Some(ModeLoader::TitleScreen),
            AppState::InGame => Some(ModeLoader::InGame),
            _ => None,
        };
        assert_eq!(AssetsHandler::queue_assets_for_state(mode), expected);
        assert_eq!(AssetsHandler::new().load(mode), expected);
    }
}

#[test]
fn gate_stays_loading_until_the_last_handle_resolves() {
    let orders: [[usize; 3]; 3] = [[0, 1, 2], [2, 1, 0], [1, 2, 0]];
    for order in orders {
        let mut handler = AssetsHandler::new();
        handler.load(AppState::TitleScreen);
        handler.add_mesh(handle("a.glb"));
        handler.add_glb(handle("b.glb"));
        handler.add_animation(handle("c.glb#Animation0"));
        let mut statuses = vec![LoadStatus::Pending; 3];
        for (step, index) in order.iter().enumerate() {
            let report = handler.poll(&statuses);
            assert_eq!(report.committed, None, "step {}", step);
            assert_eq!(handler.state(), AppState::Loading);
            assert_eq!(handler.assets_loading().asset_handles.len(), 3);
            statuses[*index] = LoadStatus::Loaded;
        }
        let report = handler.poll(&statuses);
        assert_eq!(report.committed, Some(AppState::TitleScreen));
        assert_eq!(handler.state(), AppState::TitleScreen);
        assert!(handler.assets_loading().asset_handles.is_empty());
    }
}

#[test]
fn failed_handle_counts_as_resolved_and_is_reported() {
    let mut handler = AssetsHandler::new();
    handler.load(AppState::InGame);
    handler.add_mesh(handle("good.glb"));
    handler.add_font(handle("broken.ttf"));
    handler.add_audio(handle("also_broken.ogg"));

    let report = handler.poll(&vec![LoadStatus::Pending, LoadStatus::Failed, LoadStatus::Loaded]);
    assert_eq!(report.committed, None);
    assert_eq!(report.failed, vec![1]);
    assert!(report.released.is_empty());
    assert_eq!(handler.assets_loading().asset_handles[1], handle("broken.ttf"));
    assert_eq!(handler.state(), AppState::Loading);

    let report = handler.poll(&vec![LoadStatus::Loaded, LoadStatus::Failed, LoadStatus::Failed]);
    assert_eq!(report.committed, Some(AppState::InGame));
    assert_eq!(report.failed, vec![1, 2]);
    assert_eq!(
        report.released,
        vec![handle("good.glb"), handle("broken.ttf"), handle("also_broken.ogg")]
    );
    assert_eq!(handler.state(), AppState::InGame);
    assert_eq!(handler.next_state(), None);
    assert!(handler.assets_loading().asset_handles.is_empty());
}

#[test]
fn all_failed_still_commits() {
    let mut handler = AssetsHandler::new();
    handler.load(AppState::Splash);
    handler.add_font(handle("missing.ttf"));
    let report = handler.poll(&vec![LoadStatus::Failed]);
    assert_eq!(report.committed, Some(AppState::Splash));
    assert_eq!(report.failed, vec![0]);
    assert_eq!(report.released, vec![handle("missing.ttf")]);
    assert_eq!(handler.state(), AppState::Splash);
}

#[test]
fn second_load_replaces_the_pending_mode_and_keeps_the_queue() {
    let mut handler = AssetsHandler::new();
    handler.load(AppState::TitleScreen);
    handler.add_font(handle("title.ttf"));
    handler.load(AppState::InGame);
    assert_eq!(handler.state(), AppState::Loading);
    assert_eq!(handler.next_state(), Some(AppState::InGame));
    handler.add_mesh(handle("maze.glb"));
    assert_eq!(queued(&handler), vec![handle("title.ttf"), handle("maze.glb")]);

    let report = handler.poll(&vec![LoadStatus::Pending, LoadStatus::Loaded]);
    assert_eq!(report.committed, None);
    assert_eq!(handler.state(), AppState::Loading);

    let report = handler.poll(&vec![LoadStatus::Loaded, LoadStatus::Loaded]);
    assert_eq!(report.committed, Some(AppState::InGame));
    assert_eq!(handler.state(), AppState::InGame);
    assert!(handler.assets_loading().asset_handles.is_empty());

    let report = handler.poll(&vec![]);
    assert_eq!(report.committed, None);
    assert_eq!(handler.state(), AppState::InGame);
}

#[test]
fn poll_outside_loading_changes_nothing() {
    let mut handler = AssetsHandler::new();
    let report = handler.poll(&vec![]);
    assert_eq!(report.committed, None);
    assert!(report.failed.is_empty());
    assert_eq!(handler.state(), AppState::Initial);
    assert_eq!(handler.next_state(), None);
}

#[test]
fn requested_handles_join_the_queue_in_order() {
    let mut handler = AssetsHandler::new();
    handler.load(AppState::InGame);
    handler.add_mesh(handle("m.glb#Mesh0/Primitive0"));
    handler.add_font(handle("f.ttf"));
    handler.add_audio(handle("a.ogg"));
    handler.add_glb(handle("g.glb"));
    handler.add_animation(handle("g.glb#Animation0"));
    assert_eq!(
        queued(&handler),
        vec![
            handle("m.glb#Mesh0/Primitive0"),
            handle("f.ttf"),
            handle("a.ogg"),
            handle("g.glb"),
            handle("g.glb#Animation0"),
        ]
    );
    assert_eq!(handler.state(), AppState::Loading);
    assert_eq!(handler.next_state(), Some(AppState::InGame));
}

#[test]
fn textured_material_awaits_its_image() {
    let mut handler = AssetsHandler::new();
    handler.load(AppState::InGame);
    assert_eq!(handler.add_material(handle("textures/grass.png"), false), AlphaMode::Opaque);
    assert_eq!(handler.add_material(handle("textures/glass.png"), true), AlphaMode::Blend);
    assert_eq!(
        queued(&handler),
        vec![handle("textures/grass.png"), handle("textures/glass.png")]
    );
    let report = handler.poll(&vec![LoadStatus::Loaded, LoadStatus::Pending]);
    assert_eq!(report.committed, None);
    let report = handler.poll(&vec![LoadStatus::Loaded, LoadStatus::Loaded]);
    assert_eq!(report.committed, Some(AppState::InGame));
}

#[test]
fn poll_without_a_pending_mode_only_empties_the_queue() {
    let mut handler = AssetsHandler::new();
    handler.load(AppState::Loading);
    let report = handler.poll(&vec![]);
    assert_eq!(report.committed, Some(AppState::Loading));
    assert_eq!(handler.state(), AppState::Loading);
    assert_eq!(handler.next_state(), None);
    handler.add_font(handle("late.ttf"));
    let report = handler.poll(&vec![LoadStatus::Pending]);
    assert_eq!(report.committed, None);
    assert_eq!(handler.assets_loading().asset_handles.len(), 1);
    let report = handler.poll(&vec![LoadStatus::Loaded]);
    assert_eq!(report.committed, None);
    assert_eq!(report.released, vec![handle("late.ttf")]);
    assert_eq!(handler.state(), AppState::Loading);
    assert!(handler.assets_loading().asset_handles.is_empty());
}

#[test]
fn only_loaded_and_failed_are_resolved() {
    assert_eq!(LoadStatus::from_state(LoadState::NotLoaded), LoadStatus::Pending);
    assert_eq!(LoadStatus::from_state(LoadState::Loading), LoadStatus::Pending);
    assert_eq!(LoadStatus::from_state(LoadState::Loaded), LoadStatus::Loaded);
    assert_eq!(LoadStatus::from_state(LoadState::Failed), LoadStatus::Failed);
    assert_eq!(LoadStatus::from_state(LoadState::Unloaded), LoadStatus::Pending);
    assert!(!LoadStatus::Pending.resolved());
    assert!(LoadStatus::Loaded.resolved());
    assert!(LoadStatus::Failed.resolved());
}

#[test]
fn loading_is_the_only_transient_mode() {
    for mode in ALL_MODES {
        assert_eq!(mode.loading(), mode == AppState::Loading);
    }
}

#[test]
fn handle_is_accepted_in_any_mode() {
    for mode in ALL_MODES {
        let mut handler = AssetsHandler::new();
        handler.load(mode);
        handler.poll(&vec![]);
        assert_eq!(handler.state(), mode);
        handler.add_mesh(handle("early.glb"));
        assert_eq!(queued(&handler), vec![handle("early.glb")]);
        assert_eq!(handler.state(), mode);
        assert_eq!(handler.next_state(), None);
    }
}

#[test]
fn requests_before_load_end_as_requests_after_load() {
    let mut before = AssetsHandler::new();
    before.add_mesh(handle("maze.glb"));
    assert_eq!(before.add_material(handle("grass.png"), true), AlphaMode::Blend);
    assert_eq!(before.state(), AppState::Initial);
    assert_eq!(before.next_state(), None);
    assert_eq!(before.load(AppState::InGame), Some(ModeLoader::InGame));

    let mut after = AssetsHandler::new();
    assert_eq!(after.load(AppState::InGame), Some(ModeLoader::InGame));
    after.add_mesh(handle("maze.glb"));
    assert_eq!(after.add_material(handle("grass.png"), true), AlphaMode::Blend);

    assert_eq!(before.state(), after.state());
    assert_eq!(before.next_state(), after.next_state());
    assert_eq!(queued(&before), queued(&after));
    assert_eq!(before.state(), AppState::Loading);
    assert_eq!(queued(&before), vec![handle("maze.glb"), handle("grass.png")]);

    let report = before.poll(&vec![LoadStatus::Loaded, LoadStatus::Pending]);
    assert_eq!(report.committed, None);
    let report = before.poll(&vec![LoadStatus::Loaded, LoadStatus::Failed]);
    assert_eq!(report.committed, Some(AppState::InGame));
    assert_eq!(report.failed, vec![1]);
    assert_eq!(before.state(), AppState::InGame);
}
