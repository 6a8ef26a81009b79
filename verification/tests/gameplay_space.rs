use last_beacon::scenes::stack::SceneSource;
use last_beacon::scenes::{
    BEACON_SCENE, GAMEPLAY_LEVEL_SCENE, MAIN_MENU_ROOT_SCENE, MAIN_MENU_SCENE, OPTIONS_MENU_SCENE,
    PAUSE_MENU_SCENE,
};
use last_beacon::shared::{
    last_beacon_is_in_hub, last_beacon_is_in_world, resolve_last_beacon_gameplay_space,
    scene_stack_contains_bsn_scene, LastBeaconGameplaySpace,
};

#[test]
fn resolves_to_neither_when_no_gameplay_scene_is_open() {
    assert_eq!(
        resolve_last_beacon_gameplay_space(&Vec::new()),
        LastBeaconGameplaySpace::Neither,
    );
    assert_eq!(LastBeaconGameplaySpace::default(), LastBeaconGameplaySpace::Neither);
}

#[test]
fn resolves_to_hub_when_the_beacon_scene_is_open() {
    let space = resolve_last_beacon_gameplay_space(&vec![SceneSource::bsn_scene(BEACON_SCENE)]);
    assert_eq!(space, LastBeaconGameplaySpace::Hub);
    assert!(last_beacon_is_in_hub(space));
    assert!(!last_beacon_is_in_world(space));
}

#[test]
fn resolves_to_world_when_the_gameplay_level_scene_is_open() {
    let space =
        resolve_last_beacon_gameplay_space(&vec![SceneSource::bsn_scene(GAMEPLAY_LEVEL_SCENE)]);
    assert_eq!(space, LastBeaconGameplaySpace::World);
    assert!(last_beacon_is_in_world(space));
    assert!(!last_beacon_is_in_hub(space));
}

#[test]
fn pause_overlay_does_not_change_the_resolved_hub_space() {
    let stack = vec![
        SceneSource::bsn_scene(BEACON_SCENE),
        SceneSource::bsn_scene(PAUSE_MENU_SCENE),
    ];
    assert_eq!(resolve_last_beacon_gameplay_space(&stack), LastBeaconGameplaySpace::Hub);
}

#[test]
fn the_beacon_shell_wins_over_the_gameplay_level() {
    let stack = vec![
        SceneSource::bsn_scene(GAMEPLAY_LEVEL_SCENE),
        SceneSource::bsn_scene(OPTIONS_MENU_SCENE),
        SceneSource::bsn_scene(BEACON_SCENE),
    ];
    assert_eq!(resolve_last_beacon_gameplay_space(&stack), LastBeaconGameplaySpace::Hub);
}

#[test]
fn only_bsn_entries_count_as_open_scenes() {
    let stack = vec![
        SceneSource::runtime(BEACON_SCENE),
        SceneSource::runtime(MAIN_MENU_ROOT_SCENE),
        SceneSource::bsn_scene(MAIN_MENU_SCENE),
    ];
    assert!(!scene_stack_contains_bsn_scene(&stack, BEACON_SCENE));
    assert!(scene_stack_contains_bsn_scene(&stack, MAIN_MENU_SCENE));
    assert_eq!(resolve_last_beacon_gameplay_space(&stack), LastBeaconGameplaySpace::Neither);
}
