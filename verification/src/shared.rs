//! Which gameplay space is active, resolved from the scene stack.
//!
//! The Beacon hub and the launched-vehicle world are separate spaces; the
//! active one is recomputed from the scene stack rather than stored, so it
//! never drifts from what is on screen. Both scenes persist beneath
//! pause and options overlays, so the resolution goes by scene key, never by
//! presentation: no other entry can change it.
use vstd::prelude::*;

use crate::scenes::stack::{SceneSource, SceneSourceModel};
use crate::scenes::{BEACON_SCENE, GAMEPLAY_LEVEL_SCENE};
use crate::text::str_eq;

verus! {

/// Which Last Beacon gameplay space is currently active.
#[derive(Clone, Copy, Debug, PartialEq, Eq, Structural)]
pub enum LastBeaconGameplaySpace {
    /// Neither the Hub nor the World scene is on the scene stack -- for example,
    /// the main menu, a splash screen, or credits.
    Neither,
    /// The Beacon hub scene is on the scene stack.
    Hub,
    /// The launched-vehicle/expedition world scene is on the scene stack.
    World,
}

impl Default for LastBeaconGameplaySpace {
    fn default() -> (r: LastBeaconGameplaySpace)
        ensures
            r == LastBeaconGameplaySpace::Neither,
    {
        LastBeaconGameplaySpace::Neither
    }
}

/// Whether the `.bsn` scene `key` is anywhere on the stack `entries`.
pub open spec fn stack_has_bsn_scene(entries: Seq<SceneSourceModel>, key: Seq<char>) -> bool {
    exists|i: int| 0 <= i < entries.len() && #[trigger] entries[i] == SceneSourceModel::BsnScene(key)
}

/// The space the stack `entries` puts the game in: the Hub while the Beacon
/// shell is open (even if the world scene is open too), else the World while
/// the gameplay level is open, else neither.
pub open spec fn resolved_space(entries: Seq<SceneSourceModel>) -> LastBeaconGameplaySpace {
    if stack_has_bsn_scene(entries, BEACON_SCENE@) {
        LastBeaconGameplaySpace::Hub
    } else if stack_has_bsn_scene(entries, GAMEPLAY_LEVEL_SCENE@) {
        LastBeaconGameplaySpace::World
    } else {
        LastBeaconGameplaySpace::Neither
    }
}

/// The mathematical form of a scene stack's entry sources.
pub open spec fn entries_view(entries: Seq<SceneSource>) -> Seq<SceneSourceModel> {
    entries.map_values(|s: SceneSource| s@)
}

/// Whether the `.bsn` scene with key `target_scene_key` is on the stack.
pub fn scene_stack_contains_bsn_scene(entries: &Vec<SceneSource>, target_scene_key: &str) -> (r:
    bool)
    ensures
        r == stack_has_bsn_scene(entries_view(entries@), target_scene_key@),
{
    let ghost view = entries_view(entries@);
    let mut i: usize = 0;
    while i < entries.len()
        invariant
            i <= entries.len(),
            view == entries_view(entries@),
            forall|k: int|
                0 <= k < i ==> #[trigger] view[k] != SceneSourceModel::BsnScene(target_scene_key@),
        decreases entries.len() - i,
    {
        match &entries[i] {
            SceneSource::BsnScene { key } => {
                if str_eq(key.as_str(), target_scene_key) {
                    assert(view[i as int] == SceneSourceModel::BsnScene(target_scene_key@));
                    return true;
                }
            },
            SceneSource::Runtime { .. } => {},
        }
        assert(view[i as int] == entries@[i as int]@);
        i = i + 1;
    }
    false
}

/// Recomputes the active gameplay space from the scene stack's entries.
pub fn resolve_last_beacon_gameplay_space(entries: &Vec<SceneSource>) -> (r:
    LastBeaconGameplaySpace)
    ensures
        r == resolved_space(entries_view(entries@)),
{
    let beacon_scene_is_open = scene_stack_contains_bsn_scene(entries, BEACON_SCENE);
    let world_scene_is_open = scene_stack_contains_bsn_scene(entries, GAMEPLAY_LEVEL_SCENE);
    if beacon_scene_is_open {
        LastBeaconGameplaySpace::Hub
    } else if world_scene_is_open {
        LastBeaconGameplaySpace::World
    } else {
        LastBeaconGameplaySpace::Neither
    }
}

/// Run condition: true while the Hub is active.
pub fn last_beacon_is_in_hub(gameplay_space: LastBeaconGameplaySpace) -> (r: bool)
    ensures
        r == (gameplay_space == LastBeaconGameplaySpace::Hub),
{
    gameplay_space == LastBeaconGameplaySpace::Hub
}

/// Run condition: true while the World is active.
pub fn last_beacon_is_in_world(gameplay_space: LastBeaconGameplaySpace) -> (r: bool)
    ensures
        r == (gameplay_space == LastBeaconGameplaySpace::World),
{
    gameplay_space == LastBeaconGameplaySpace::World
}

/// An entry other than the Beacon shell and the gameplay level, such as a
/// pause or options overlay, never changes the resolved space, wherever it is
/// opened on the stack or closed from it.
pub proof fn law_other_entries_never_change_the_space(
    entries: Seq<SceneSourceModel>,
    position: int,
    entry: SceneSourceModel,
)
    requires
        0 <= position <= entries.len(),
        entry != SceneSourceModel::BsnScene(BEACON_SCENE@),
        entry != SceneSourceModel::BsnScene(GAMEPLAY_LEVEL_SCENE@),
    ensures
        resolved_space(entries.insert(position, entry)) == resolved_space(entries),
{
    let bigger = entries.insert(position, entry);
    assert forall|key: Seq<char>|
        key == BEACON_SCENE@ || key == GAMEPLAY_LEVEL_SCENE@ implies stack_has_bsn_scene(
        bigger,
        key,
    ) == stack_has_bsn_scene(entries, key) by {
        if stack_has_bsn_scene(entries, key) {
            let i = choose|i: int|
                0 <= i < entries.len() && #[trigger] entries[i] == SceneSourceModel::BsnScene(key);
            if i < position {
                assert(bigger[i] == entries[i]);
            } else {
                assert(bigger[i + 1] == entries[i]);
            }
        }
        if stack_has_bsn_scene(bigger, key) {
            let i = choose|i: int|
                0 <= i < bigger.len() && #[trigger] bigger[i] == SceneSourceModel::BsnScene(key);
            if i < position {
                assert(entries[i] == bigger[i]);
            } else if i > position {
                assert(entries[i - 1] == bigger[i]);
            }
        }
    }
}

/// With the Beacon shell open, the space is the Hub whatever else is open:
/// the shell takes precedence over the gameplay level.
pub proof fn law_beacon_shell_takes_precedence(entries: Seq<SceneSourceModel>, position: int)
    requires
        0 <= position <= entries.len(),
    ensures
        resolved_space(entries.insert(position, SceneSourceModel::BsnScene(BEACON_SCENE@)))
            == LastBeaconGameplaySpace::Hub,
{
    let bigger = entries.insert(position, SceneSourceModel::BsnScene(BEACON_SCENE@));
    assert(bigger[position] == SceneSourceModel::BsnScene(BEACON_SCENE@));
}

} // verus!
