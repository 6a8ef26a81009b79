use last_beacon::scenes::main_menu::{
    advance_last_beacon_main_menu_roots, CompletedSplash, LastBeaconMainMenuRootPhase,
    BEVY_SPLASH_STACK_KEY, PIXEL_PERFECT_SPLASH_STACK_KEY,
};
use last_beacon::scenes::stack::{
    scene_source_key, OpenSceneOptions, SceneCommand, ScenePresentation, SceneSource, SceneTarget,
};
use last_beacon::scenes::{
    bsn_scene_path, default_startup_scene_commands, main_menu_preload_sources,
    navigate_last_beacon_beacon_pages, open_beacon_page, register_last_beacon_bsn_scenes,
    register_last_beacon_scene_preloads, scene_preload_targets,
    spawn_requested_last_beacon_scene_drivers, BeaconPageButtonChange,
    LastBeaconBeaconPageButton, SceneLoadRequested, BEACON_PAGE_STACK_KEY, BEACON_SCENE,
    BEACON_SHELL_STACK_KEY, BEVY_SPLASH_SCENE, CREDITS_SCENE, DASHBOARD_SCENE, FABRICATION_SCENE,
    GAMEPLAY_LEVEL_SCENE, GARAGE_SCENE, HANGAR_SCENE, MAIN_MENU_ROOT_SCENE, MAIN_MENU_SCENE,
    MISSION_CONTROL_SCENE, OPTIONS_MENU_SCENE, PAUSE_MENU_SCENE, PIXEL_PERFECT_SPLASH_SCENE,
    SILO_UPGRADES_SCENE, UI_PLAYGROUND_SCENE,
};
use last_beacon::input::ButtonInteraction;
use last_beacon::GAME_NAME;

#[test]
fn game_name_matches_foundation_launch_argument() {
    assert_eq!(GAME_NAME, "last-beacon");
}

#[test]
fn required_scene_keys_are_stable() {
    assert_eq!(PIXEL_PERFECT_SPLASH_SCENE, "last-beacon/splash_pixel_perfect");
    assert_eq!(MAIN_MENU_ROOT_SCENE, "last-beacon/main_menu_root");
    assert_eq!(BEVY_SPLASH_SCENE, "last-beacon/splash_bevy");
    assert_eq!(MAIN_MENU_SCENE, "last-beacon/main_menu");
    assert_eq!(OPTIONS_MENU_SCENE, "last-beacon/options_menu");
    assert_eq!(BEACON_SCENE, "last-beacon/beacon");
    assert_eq!(BEACON_SHELL_STACK_KEY, "beacon-shell");
    assert_eq!(BEACON_PAGE_STACK_KEY, "beacon-page");
    assert_eq!(DASHBOARD_SCENE, "last-beacon/dashboard");
    assert_eq!(HANGAR_SCENE, "last-beacon/hangar");
    assert_eq!(GARAGE_SCENE, "last-beacon/garage");
    assert_eq!(MISSION_CONTROL_SCENE, "last-beacon/mission_control");
    assert_eq!(FABRICATION_SCENE, "last-beacon/fabrication");
    assert_eq!(UI_PLAYGROUND_SCENE, "last-beacon/ui_playground");
    assert_eq!(SILO_UPGRADES_SCENE, "last-beacon/silo_upgrades");
    assert_eq!(CREDITS_SCENE, "last-beacon/credits");
    assert_eq!(GAMEPLAY_LEVEL_SCENE, "last-beacon/gameplay_level");
    assert_eq!(PAUSE_MENU_SCENE, "last-beacon/pause_menu");
}

#[test]
fn default_startup_scene_opens_main_menu_root() {
    let startup_commands = default_startup_scene_commands();

    assert_eq!(
        startup_commands,
        vec![
            SceneCommand::Clear,
            SceneCommand::open_with_options(
                SceneSource::runtime(MAIN_MENU_ROOT_SCENE),
                OpenSceneOptions::new()
                    .with_key("startup-splash")
                    .with_presentation(ScenePresentation::Fullscreen),
            ),
        ]
    );
}

#[test]
fn scene_preload_registry_registers_common_ui_targets() {
    assert_eq!(
        scene_preload_targets(&SceneSource::runtime(MAIN_MENU_ROOT_SCENE)),
        vec![
            SceneSource::bsn_scene(PIXEL_PERFECT_SPLASH_SCENE),
            SceneSource::bsn_scene(BEVY_SPLASH_SCENE),
            SceneSource::bsn_scene(MAIN_MENU_SCENE),
            SceneSource::bsn_scene(OPTIONS_MENU_SCENE),
        ]
    );
    assert_eq!(
        scene_preload_targets(&SceneSource::bsn_scene(BEACON_SCENE)),
        vec![
            SceneSource::bsn_scene(DASHBOARD_SCENE),
            SceneSource::bsn_scene(HANGAR_SCENE),
            SceneSource::bsn_scene(GARAGE_SCENE),
            SceneSource::bsn_scene(MISSION_CONTROL_SCENE),
            SceneSource::bsn_scene(FABRICATION_SCENE),
            SceneSource::bsn_scene(SILO_UPGRADES_SCENE),
            SceneSource::bsn_scene(OPTIONS_MENU_SCENE),
        ]
    );
    assert_eq!(
        scene_preload_targets(&SceneSource::bsn_scene(GAMEPLAY_LEVEL_SCENE)),
        vec![
            SceneSource::bsn_scene(PAUSE_MENU_SCENE),
            SceneSource::bsn_scene(OPTIONS_MENU_SCENE),
        ]
    );
    assert!(scene_preload_targets(&SceneSource::bsn_scene(PAUSE_MENU_SCENE)).is_empty());
}

#[test]
fn preload_groups_are_registered_in_order() {
    let groups = register_last_beacon_scene_preloads();
    let owners: Vec<SceneSource> = groups.iter().map(|g| g.owner.clone()).collect();
    assert_eq!(
        owners,
        vec![
            SceneSource::runtime(MAIN_MENU_ROOT_SCENE),
            SceneSource::bsn_scene(BEACON_SCENE),
            SceneSource::bsn_scene(GAMEPLAY_LEVEL_SCENE),
            SceneSource::bsn_scene(PAUSE_MENU_SCENE),
        ]
    );
    // A runtime source and a `.bsn` source with the same key are different owners.
    assert!(scene_preload_targets(&SceneSource::bsn_scene(MAIN_MENU_ROOT_SCENE)).is_empty());
}

fn main_menu_root_after(preload_ready: Vec<bool>) -> LastBeaconMainMenuRootPhase {
    let mut phases = vec![LastBeaconMainMenuRootPhase::Starting];
    advance_last_beacon_main_menu_roots(&preload_ready, &Vec::new(), &mut phases);
    phases[0]
}

#[test]
fn main_menu_root_waits_for_full_preload_group_before_first_splash() {
    assert_eq!(
        main_menu_root_after(vec![false, false, false, false]),
        LastBeaconMainMenuRootPhase::Starting,
        "the splash sequence should not start until Pixel Perfect, Bevy, main menu, and options are all prepared"
    );
    assert_eq!(
        main_menu_root_after(vec![true, true, true, false]),
        LastBeaconMainMenuRootPhase::Starting
    );
}

#[test]
fn main_menu_root_starts_first_splash_after_full_preload_group_is_ready() {
    let mut phases = vec![LastBeaconMainMenuRootPhase::Starting];
    let commands =
        advance_last_beacon_main_menu_roots(&vec![true; 4], &Vec::new(), &mut phases);
    assert_eq!(phases, vec![LastBeaconMainMenuRootPhase::PixelPerfectSplash]);
    let mut expected: Vec<SceneCommand> =
        main_menu_preload_sources().into_iter().map(SceneCommand::preload).collect();
    expected.push(SceneCommand::open_with_options(
        SceneSource::bsn_scene(PIXEL_PERFECT_SPLASH_SCENE),
        OpenSceneOptions::new()
            .with_key("main-menu-pixel-perfect-splash")
            .with_presentation(ScenePresentation::InputBlockingOverlay),
    ));
    assert_eq!(commands, expected);
}

#[test]
fn the_splash_sequence_hands_over_to_the_main_menu() {
    let mut phases = vec![LastBeaconMainMenuRootPhase::PixelPerfectSplash];
    let first_done = vec![CompletedSplash {
        scene_id: 7,
        source: SceneSource::bsn_scene(PIXEL_PERFECT_SPLASH_SCENE),
    }];
    let commands = advance_last_beacon_main_menu_roots(&vec![true; 4], &first_done, &mut phases);
    assert_eq!(phases, vec![LastBeaconMainMenuRootPhase::BevySplash]);
    assert_eq!(
        commands[4..].to_vec(),
        vec![
            SceneCommand::Close(SceneTarget::Id(7)),
            SceneCommand::open_with_options(
                SceneSource::bsn_scene(BEVY_SPLASH_SCENE),
                OpenSceneOptions::new()
                    .with_key(BEVY_SPLASH_STACK_KEY)
                    .with_presentation(ScenePresentation::InputBlockingOverlay),
            ),
        ]
    );

    let second_done = vec![CompletedSplash {
        scene_id: 8,
        source: SceneSource::bsn_scene(BEVY_SPLASH_SCENE),
    }];
    let commands = advance_last_beacon_main_menu_roots(&vec![true; 4], &second_done, &mut phases);
    assert_eq!(phases, vec![LastBeaconMainMenuRootPhase::MainMenu]);
    assert_eq!(
        commands[4..].to_vec(),
        vec![SceneCommand::clear_and_open(SceneSource::bsn_scene(MAIN_MENU_SCENE))]
    );
}

#[test]
fn a_splash_completing_out_of_turn_moves_nothing() {
    let mut phases = vec![
        LastBeaconMainMenuRootPhase::Starting,
        LastBeaconMainMenuRootPhase::MainMenu,
    ];
    let done = vec![CompletedSplash {
        scene_id: 3,
        source: SceneSource::bsn_scene(BEVY_SPLASH_SCENE),
    }];
    let commands = advance_last_beacon_main_menu_roots(&vec![false; 4], &done, &mut phases);
    assert_eq!(
        phases,
        vec![LastBeaconMainMenuRootPhase::Starting, LastBeaconMainMenuRootPhase::MainMenu]
    );
    assert_eq!(commands.len(), 4);
    assert_eq!(PIXEL_PERFECT_SPLASH_STACK_KEY, "main-menu-pixel-perfect-splash");
}

#[test]
fn scene_registry_maps_keys_to_bsn_assets() {
    assert_eq!(bsn_scene_path(MAIN_MENU_SCENE).as_deref(), Some("scenes/main_menu.bsn"));
    assert_eq!(bsn_scene_path(BEACON_SCENE).as_deref(), Some("scenes/beacon.bsn"));
    assert_eq!(bsn_scene_path(DASHBOARD_SCENE).as_deref(), Some("scenes/dashboard.bsn"));
    assert_eq!(
        bsn_scene_path(SILO_UPGRADES_SCENE).as_deref(),
        Some("scenes/silo_upgrades.bsn")
    );
    assert_eq!(
        bsn_scene_path(UI_PLAYGROUND_SCENE).as_deref(),
        Some("scenes/ui_playground.bsn")
    );
    assert_eq!(bsn_scene_path(MAIN_MENU_ROOT_SCENE), None);
    assert_eq!(register_last_beacon_bsn_scenes().len(), 15);
}

fn beacon_page_open(page: &str) -> Vec<SceneCommand> {
    vec![
        SceneCommand::Close(SceneTarget::Key("beacon-page".to_string())),
        SceneCommand::open_with_options(
            SceneSource::bsn_scene(page),
            OpenSceneOptions::new()
                .with_key("beacon-page")
                .with_presentation(ScenePresentation::NonBlockingOverlay),
        ),
    ]
}

#[test]
fn opening_a_beacon_page_replaces_only_the_page_entry() {
    assert_eq!(open_beacon_page(HANGAR_SCENE), beacon_page_open(HANGAR_SCENE));
}

#[test]
fn pressed_page_buttons_open_their_trimmed_page_and_others_do_nothing() {
    let change = |key: &str, interaction| BeaconPageButtonChange {
        button: LastBeaconBeaconPageButton { scene_key: key.to_string() },
        interaction,
    };
    let commands = navigate_last_beacon_beacon_pages(&vec![
        change("  last-beacon/garage \n", ButtonInteraction::Pressed),
        change("last-beacon/hangar", ButtonInteraction::Hovered),
        change("   ", ButtonInteraction::Pressed),
        change("last-beacon/fabrication", ButtonInteraction::Pressed),
    ]);
    let mut expected = beacon_page_open(GARAGE_SCENE);
    expected.extend(beacon_page_open(FABRICATION_SCENE));
    assert_eq!(commands, expected);
}

#[test]
fn scene_drivers_spawn_the_main_menu_root_and_open_the_dashboard() {
    let plan = spawn_requested_last_beacon_scene_drivers(&vec![
        SceneLoadRequested { scene_id: 1, source: SceneSource::runtime(MAIN_MENU_ROOT_SCENE) },
        SceneLoadRequested { scene_id: 2, source: SceneSource::bsn_scene(BEACON_SCENE) },
        SceneLoadRequested { scene_id: 3, source: SceneSource::runtime("foundation/credits") },
        SceneLoadRequested { scene_id: 4, source: SceneSource::bsn_scene(HANGAR_SCENE) },
    ]);
    assert_eq!(plan.main_menu_root_owners, vec![1]);
    assert_eq!(plan.commands, beacon_page_open(DASHBOARD_SCENE));
    assert_eq!(scene_source_key(&SceneSource::runtime("x/y")), "x/y");
}
