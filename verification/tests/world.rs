use last_beacon::world::free_fly_camera::{
    lock_cursor_for_last_beacon_free_fly_cameras, CursorGrab, CursorState,
};
use last_beacon::world::landscape::{
    build_landscape_triangle_indices, grid_triangle_indices, landscape_parameter_name,
    landscape_vertex_index, parse_landscape_parameter, LandscapeParameter,
    LANDSCAPE_GRID_RESOLUTION,
};
use last_beacon::world::{
    effective_landscape_test_scene_owner, keep_pause_menu_visible_over_the_world_scene,
    landscape_test_scene_needs_initialization, landscape_test_scene_seed, CameraClear, LastBeaconLandscapeTestScene,
    LANDSCAPE_FALLBACK_SEED, LAST_BEACON_LANDSCAPE_CAMERA_ORDER,
    LAST_BEACON_UI_CAMERA_PAUSED_ORDER,
};

#[test]
fn ui_camera_stays_at_its_normal_order_when_not_paused() {
    let layering = keep_pause_menu_visible_over_the_world_scene(false, true);
    assert_eq!(layering.order, 100);
    assert_eq!(layering.clear_color, CameraClear::Default);
}

#[test]
fn ui_camera_renders_above_world_scene_while_paused() {
    let layering = keep_pause_menu_visible_over_the_world_scene(true, true);
    assert_eq!(layering.order, LAST_BEACON_UI_CAMERA_PAUSED_ORDER);
    assert!(layering.order > LAST_BEACON_LANDSCAPE_CAMERA_ORDER);
    assert_eq!(layering.order, 300);
    assert_eq!(layering.clear_color, CameraClear::Keep);
}

#[test]
fn pausing_without_a_world_scene_open_does_not_reorder_the_ui_camera() {
    let layering = keep_pause_menu_visible_over_the_world_scene(true, false);
    assert_eq!(layering.order, 100);
    assert_eq!(layering.clear_color, CameraClear::Default);
}

#[test]
fn cursor_locks_and_hides_while_flying_unpaused() {
    assert_eq!(
        lock_cursor_for_last_beacon_free_fly_cameras(false, true),
        CursorState { visible: false, grab: CursorGrab::Locked }
    );
}

#[test]
fn cursor_unlocks_and_shows_while_paused() {
    assert_eq!(
        lock_cursor_for_last_beacon_free_fly_cameras(true, true),
        CursorState { visible: true, grab: CursorGrab::Free }
    );
}

#[test]
fn cursor_stays_unlocked_without_a_free_fly_camera() {
    assert_eq!(
        lock_cursor_for_last_beacon_free_fly_cameras(false, false),
        CursorState { visible: true, grab: CursorGrab::Free }
    );
}

const PARAMETER_NAMES: [&str; 36] = [
    "erosion-scale",
    "erosion-strength",
    "erosion-gully-weight",
    "erosion-detail",
    "erosion-rounding-ridge",
    "erosion-rounding-crease",
    "erosion-rounding-height-multiplier",
    "erosion-rounding-octave-multiplier",
    "erosion-onset-initial",
    "erosion-onset-octave",
    "erosion-onset-ridge-map-initial",
    "erosion-onset-ridge-map-octave",
    "erosion-assumed-slope-value",
    "erosion-assumed-slope-amount",
    "erosion-cell-scale",
    "erosion-normalization",
    "erosion-octaves",
    "erosion-lacunarity",
    "erosion-gain",
    "erosion-enabled",
    "terrain-height-offset-value",
    "terrain-height-offset-erosion-mix",
    "height-frequency",
    "height-amplitude",
    "height-octaves",
    "height-lacunarity",
    "height-gain",
    "world-height-scale-meters",
    "world-height-offset-meters",
    "lowland-flatten-height-meters",
    "lowland-flatten-range-meters",
    "lowland-flatten-strength",
    "color-rock-slope-start",
    "color-rock-slope-end",
    "color-blend-sharpness",
    "snow-slope-bias",
];

#[test]
fn apply_and_read_back_named_parameters_round_trips() {
    let mut seen = Vec::new();
    for name in PARAMETER_NAMES {
        let parameter = parse_landscape_parameter(name)
            .unwrap_or_else(|error| panic!("'{name}' should be a parameter: {error}"));
        assert_eq!(landscape_parameter_name(parameter), name);
        assert!(!seen.contains(&parameter), "'{name}' must address its own parameter");
        seen.push(parameter);
    }
    assert_eq!(parse_landscape_parameter("erosion-octaves"), Ok(LandscapeParameter::ErosionOctaves));
    assert_eq!(parse_landscape_parameter("snow-slope-bias"), Ok(LandscapeParameter::SnowSlopeBias));
}

#[test]
fn unknown_parameter_name_is_rejected() {
    assert_eq!(
        parse_landscape_parameter("not-a-real-parameter"),
        Err("unknown landscape parameter 'not-a-real-parameter'".to_string())
    );
    assert!(parse_landscape_parameter("Erosion-Scale").is_err());
    assert!(parse_landscape_parameter("").is_err());
}

#[test]
fn landscape_mesh_has_expected_vertex_and_triangle_counts() {
    let triangle_indices = build_landscape_triangle_indices();
    let expected_triangle_count =
        (LANDSCAPE_GRID_RESOLUTION - 1) * (LANDSCAPE_GRID_RESOLUTION - 1) * 2;
    assert_eq!(triangle_indices.len(), expected_triangle_count * 3);
    let vertex_count = (LANDSCAPE_GRID_RESOLUTION * LANDSCAPE_GRID_RESOLUTION) as u32;
    assert!(triangle_indices.iter().all(|&index| index < vertex_count));
}

#[test]
fn a_small_grid_is_wound_quad_by_quad() {
    // 3x3 vertices: 0 1 2 / 3 4 5 / 6 7 8.
    assert_eq!(
        grid_triangle_indices(3),
        vec![
            0, 3, 1, 1, 3, 4, //
            1, 4, 2, 2, 4, 5, //
            3, 6, 4, 4, 6, 7, //
            4, 7, 5, 5, 7, 8,
        ]
    );
    assert!(grid_triangle_indices(1).is_empty());
    assert_eq!(landscape_vertex_index(2, 3), 2 * 512 + 3);
    assert_eq!(landscape_vertex_index(511, 511), 512 * 512 - 1);
}

#[test]
fn a_landscape_scene_is_built_once_per_owner() {
    assert_eq!(effective_landscape_test_scene_owner(Some(4), Some(9)), Some(4));
    assert_eq!(effective_landscape_test_scene_owner(None, Some(9)), Some(9));
    assert_eq!(effective_landscape_test_scene_owner(None, None), None);
    assert!(landscape_test_scene_needs_initialization(Some(4), &vec![None, Some(3)]));
    assert!(!landscape_test_scene_needs_initialization(Some(3), &vec![None, Some(3)]));
    assert!(landscape_test_scene_needs_initialization(None, &vec![None]));
}

#[test]
fn landscape_test_scenes_get_a_seed_by_default() {
    let _scene = LastBeaconLandscapeTestScene::default();
}

#[test]
fn a_drawn_seed_is_kept_and_a_failed_draw_falls_back() {
    assert_eq!(landscape_test_scene_seed(Some(123_456)), 123_456);
    assert_eq!(landscape_test_scene_seed(Some(u32::MAX)), u32::MAX);
    assert_eq!(landscape_test_scene_seed(None), LANDSCAPE_FALLBACK_SEED);
}
