//! World gameplay decisions: how the UI camera is layered over the World
//! scene, and when a landscape test scene still needs its terrain built.
use vstd::prelude::*;

pub mod free_fly_camera;
pub mod landscape;

verus! {

/// The persistent UI camera's normal render order.
pub const LAST_BEACON_UI_CAMERA_ORDER: isize = 100;

/// The World scene's 3D camera's normal render order, above the persistent
/// UI camera so it paints over an assumed-empty UI layer during ordinary
/// gameplay.
pub const LAST_BEACON_LANDSCAPE_CAMERA_ORDER: isize = 200;

/// Order the UI camera renders at instead, while paused, so the pause menu
/// draws on top of the frozen World scene.
pub const LAST_BEACON_UI_CAMERA_PAUSED_ORDER: isize = LAST_BEACON_LANDSCAPE_CAMERA_ORDER + 100;

/// Whether a camera clears its viewport before drawing.
#[derive(Clone, Copy, Debug, PartialEq, Eq, Structural)]
pub enum CameraClear {
    /// Clears to the global clear color.
    Default,
    /// Draws over what is already there.
    Keep,
}

/// How the UI camera renders: its order and whether it clears first.
#[derive(Clone, Copy, Debug, PartialEq, Eq, Structural)]
pub struct UiCameraLayering {
    pub order: isize,
    pub clear_color: CameraClear,
}

/// Lets the pause menu render on top of the World scene: only while paused
/// with the World scene's own camera present does the UI camera move above
/// it and stop clearing; otherwise it keeps its normal order and clearing.
pub fn keep_pause_menu_visible_over_the_world_scene(
    paused: bool,
    world_scene_camera_exists: bool,
) -> (r: UiCameraLayering)
    ensures
        paused && world_scene_camera_exists ==> r == (UiCameraLayering {
            order: LAST_BEACON_UI_CAMERA_PAUSED_ORDER,
            clear_color: CameraClear::Keep,
        }),
        !(paused && world_scene_camera_exists) ==> r == (UiCameraLayering {
            order: LAST_BEACON_UI_CAMERA_ORDER,
            clear_color: CameraClear::Default,
        }),
        r.order >= LAST_BEACON_UI_CAMERA_ORDER,
        paused && world_scene_camera_exists ==> r.order > LAST_BEACON_LANDSCAPE_CAMERA_ORDER,
{
    if paused && world_scene_camera_exists {
        UiCameraLayering { order: LAST_BEACON_UI_CAMERA_PAUSED_ORDER, clear_color: CameraClear::Keep }
    } else {
        UiCameraLayering { order: LAST_BEACON_UI_CAMERA_ORDER, clear_color: CameraClear::Default }
    }
}

/// A random `u32` drawn from the operating system's random source
/// (`rand::rngs::OsRng`'s `TryRngCore::try_next_u32`), or `None` where that
/// source reports an error. Nothing is stated of the value: each call may give
/// any `u32`, or `None`.
#[verifier::external_body]
fn os_random_u32() -> (r: Option<u32>) {
    rand::TryRngCore::try_next_u32(&mut rand::rngs::OsRng).ok()
}

/// The terrain seed used when the operating system's random source fails.
pub const LANDSCAPE_FALLBACK_SEED: u32 = 0;

/// The terrain seed for a new landscape test scene, given what was drawn from
/// the random source: the drawn value, or [`LANDSCAPE_FALLBACK_SEED`] when
/// nothing could be drawn.
pub fn landscape_test_scene_seed(drawn: Option<u32>) -> (r: u32)
    ensures
        r == (match drawn {
            Some(seed) => seed,
            None => LANDSCAPE_FALLBACK_SEED,
        }),
{
    match drawn {
        Some(seed) => seed,
        None => LANDSCAPE_FALLBACK_SEED,
    }
}

/// Temporary gameplay-testbed scene: a procedurally generated mountain
/// landscape under a physically-based sky.
#[derive(Clone, Copy, Debug, PartialEq, Eq)]
pub struct LastBeaconLandscapeTestScene {
    /// Seed for the procedural terrain's noise, random by default so each
    /// run generates a different landscape.
    pub seed: u32,
}

impl Default for LastBeaconLandscapeTestScene {
    fn default() -> (r: LastBeaconLandscapeTestScene)
    {
        LastBeaconLandscapeTestScene { seed: landscape_test_scene_seed(os_random_u32()) }
    }
}

/// The scene entry a landscape test scene belongs to: its own owner, or else
/// the owner of its parent.
pub fn effective_landscape_test_scene_owner(
    scene_owner: Option<u64>,
    parent_scene_owner: Option<u64>,
) -> (r: Option<u64>)
    ensures
        r == (if scene_owner is Some {
            scene_owner
        } else {
            parent_scene_owner
        }),
{
    match scene_owner {
        Some(owner) => Some(owner),
        None => parent_scene_owner,
    }
}

/// Whether a newly added landscape test scene still needs its terrain,
/// camera, sky and sun built. The scene pipeline can add the same scene's
/// root more than once; an owned scene whose owner already has a terrain is
/// skipped. A scene with no owner is always built.
pub fn landscape_test_scene_needs_initialization(
    effective_scene_owner: Option<u64>,
    existing_terrain_owners: &Vec<Option<u64>>,
) -> (r: bool)
    ensures
        r == !(effective_scene_owner is Some && existing_terrain_owners@.contains(
            effective_scene_owner,
        )),
{
    if effective_scene_owner.is_none() {
        return true;
    }
    let mut i: usize = 0;
    while i < existing_terrain_owners.len()
        invariant
            i <= existing_terrain_owners.len(),
            effective_scene_owner is Some,
            forall|k: int|
                0 <= k < i ==> #[trigger] existing_terrain_owners@[k] != effective_scene_owner,
        decreases existing_terrain_owners.len() - i,
    {
        if existing_terrain_owners[i] == effective_scene_owner {
            assert(existing_terrain_owners@[i as int] == effective_scene_owner);
            return false;
        }
        i = i + 1;
    }
    true
}

} // verus!
