//! LastBeacon's scene catalog: stable scene keys, the `.bsn` asset file behind
//! each, which scenes keep which others preloaded, and the scene-stack
//! commands that startup, the scene drivers and Beacon page navigation issue.
use vstd::prelude::*;

pub mod main_menu;
pub mod stack;

use crate::input::ButtonInteraction;
use crate::scenes::stack::{
    append_commands, push_command, OpenSceneOptions, SceneCommand, SceneSource, SceneTarget,
};
use crate::text::{str_eq, trim};

verus! {

/// Runtime scene key for the main-menu preload and splash-sequence root.
pub const MAIN_MENU_ROOT_SCENE: &'static str = "last-beacon/main_menu_root";
/// Scene key for the first startup splash screen.
pub const PIXEL_PERFECT_SPLASH_SCENE: &'static str = "last-beacon/splash_pixel_perfect";
/// Scene key for the second startup splash screen.
pub const BEVY_SPLASH_SCENE: &'static str = "last-beacon/splash_bevy";
/// Scene key for the example main menu.
pub const MAIN_MENU_SCENE: &'static str = "last-beacon/main_menu";
/// Scene key for the stack-based settings menu.
pub const OPTIONS_MENU_SCENE: &'static str = "last-beacon/options_menu";
/// Scene key for the persistent Beacon shell.
pub const BEACON_SCENE: &'static str = "last-beacon/beacon";
/// Stable stack key for the persistent Beacon shell.
pub const BEACON_SHELL_STACK_KEY: &'static str = "beacon-shell";
/// Stable stack key for the currently selected Beacon page.
pub const BEACON_PAGE_STACK_KEY: &'static str = "beacon-page";
/// Scene key for the Beacon dashboard.
pub const DASHBOARD_SCENE: &'static str = "last-beacon/dashboard";
/// Scene key for the Beacon hangar.
pub const HANGAR_SCENE: &'static str = "last-beacon/hangar";
/// Scene key for the Beacon garage.
pub const GARAGE_SCENE: &'static str = "last-beacon/garage";
/// Scene key for mission control.
pub const MISSION_CONTROL_SCENE: &'static str = "last-beacon/mission_control";
/// Scene key for the fabrication bay.
pub const FABRICATION_SCENE: &'static str = "last-beacon/fabrication";
/// Scene key for the reusable UI widget playground.
pub const UI_PLAYGROUND_SCENE: &'static str = "last-beacon/ui_playground";
/// Scene key for silo upgrades.
pub const SILO_UPGRADES_SCENE: &'static str = "last-beacon/silo_upgrades";
/// Scene key for the scrolling credits scene.
pub const CREDITS_SCENE: &'static str = "last-beacon/credits";
/// Scene key for the small sample gameplay level.
pub const GAMEPLAY_LEVEL_SCENE: &'static str = "last-beacon/gameplay_level";
/// Scene key for the gameplay pause menu.
pub const PAUSE_MENU_SCENE: &'static str = "last-beacon/pause_menu";
/// Stack key of the first scene opened at startup.
pub const STARTUP_SPLASH_STACK_KEY: &'static str = "startup-splash";

/// One `.bsn` registration: a stable scene key and the asset file behind it.
pub struct BsnSceneRegistration {
    pub scene_key: String,
    pub asset_path: String,
}

/// The scene keys LastBeacon registers, each with its `.bsn` asset file.
pub open spec fn bsn_scene_table() -> Seq<(Seq<char>, Seq<char>)> {
    seq![
        (PIXEL_PERFECT_SPLASH_SCENE@, "scenes/pixel_perfect_splash.bsn"@),
        (BEVY_SPLASH_SCENE@, "scenes/bevy_splash.bsn"@),
        (MAIN_MENU_SCENE@, "scenes/main_menu.bsn"@),
        (OPTIONS_MENU_SCENE@, "scenes/options_menu.bsn"@),
        (BEACON_SCENE@, "scenes/beacon.bsn"@),
        (DASHBOARD_SCENE@, "scenes/dashboard.bsn"@),
        (HANGAR_SCENE@, "scenes/hangar.bsn"@),
        (GARAGE_SCENE@, "scenes/garage.bsn"@),
        (MISSION_CONTROL_SCENE@, "scenes/mission_control.bsn"@),
        (FABRICATION_SCENE@, "scenes/fabrication.bsn"@),
        (UI_PLAYGROUND_SCENE@, "scenes/ui_playground.bsn"@),
        (SILO_UPGRADES_SCENE@, "scenes/silo_upgrades.bsn"@),
        (CREDITS_SCENE@, "scenes/credits.bsn"@),
        (GAMEPLAY_LEVEL_SCENE@, "scenes/gameplay_level.bsn"@),
        (PAUSE_MENU_SCENE@, "scenes/pause_menu.bsn"@),
    ]
}

/// The mathematical form of a registration list.
pub open spec fn registrations_view(r: Seq<BsnSceneRegistration>) -> Seq<(Seq<char>, Seq<char>)> {
    r.map_values(|e: BsnSceneRegistration| (e.scene_key@, e.asset_path@))
}

fn push_registration(table: &mut Vec<BsnSceneRegistration>, scene_key: &str, asset_path: &str)
    ensures
        registrations_view(final(table)@) == registrations_view(old(table)@).push(
            (scene_key@, asset_path@),
        ),
{
    table.push(
        BsnSceneRegistration { scene_key: scene_key.to_owned(), asset_path: asset_path.to_owned() },
    );
    assert(registrations_view(table@) =~= registrations_view(old(table)@).push(
        (scene_key@, asset_path@),
    ));
}

/// The scene-key → `.bsn` asset registrations LastBeacon makes, in
/// registration order.
pub fn register_last_beacon_bsn_scenes() -> (r: Vec<BsnSceneRegistration>)
    ensures
        registrations_view(r@) == bsn_scene_table(),
{
    let mut table: Vec<BsnSceneRegistration> = Vec::new();
    push_registration(&mut table, PIXEL_PERFECT_SPLASH_SCENE, "scenes/pixel_perfect_splash.bsn");
    push_registration(&mut table, BEVY_SPLASH_SCENE, "scenes/bevy_splash.bsn");
    push_registration(&mut table, MAIN_MENU_SCENE, "scenes/main_menu.bsn");
    push_registration(&mut table, OPTIONS_MENU_SCENE, "scenes/options_menu.bsn");
    push_registration(&mut table, BEACON_SCENE, "scenes/beacon.bsn");
    push_registration(&mut table, DASHBOARD_SCENE, "scenes/dashboard.bsn");
    push_registration(&mut table, HANGAR_SCENE, "scenes/hangar.bsn");
    push_registration(&mut table, GARAGE_SCENE, "scenes/garage.bsn");
    push_registration(&mut table, MISSION_CONTROL_SCENE, "scenes/mission_control.bsn");
    push_registration(&mut table, FABRICATION_SCENE, "scenes/fabrication.bsn");
    push_registration(&mut table, UI_PLAYGROUND_SCENE, "scenes/ui_playground.bsn");
    push_registration(&mut table, SILO_UPGRADES_SCENE, "scenes/silo_upgrades.bsn");
    push_registration(&mut table, CREDITS_SCENE, "scenes/credits.bsn");
    push_registration(&mut table, GAMEPLAY_LEVEL_SCENE, "scenes/gameplay_level.bsn");
    push_registration(&mut table, PAUSE_MENU_SCENE, "scenes/pause_menu.bsn");
    assert(registrations_view(table@) =~= bsn_scene_table());
    table
}

/// The asset file of the first registration of `key` in `table`, from entry `k` on.
pub open spec fn registered_path_from(table: Seq<(Seq<char>, Seq<char>)>, key: Seq<char>, k: int) -> Option<
    Seq<char>,
>
    decreases table.len() - k,
{
    if k < 0 || k >= table.len() {
        None
    } else if table[k].0 == key {
        Some(table[k].1)
    } else {
        registered_path_from(table, key, k + 1)
    }
}

/// The `.bsn` asset file LastBeacon registers under scene key `key`, if any.
pub fn bsn_scene_path(key: &str) -> (r: Option<String>)
    ensures
        match r {
            Some(p) => registered_path_from(bsn_scene_table(), key@, 0) == Some(p@),
            None => registered_path_from(bsn_scene_table(), key@, 0) is None,
        },
{
    let table = register_last_beacon_bsn_scenes();
    let ghost t = bsn_scene_table();
    let mut k: usize = 0;
    while k < table.len()
        invariant
            k <= table.len(),
            registrations_view(table@) == t,
            t == bsn_scene_table(),
            t.len() == table.len(),
            registered_path_from(t, key@, 0) == registered_path_from(t, key@, k as int),
        decreases table.len() - k,
    {
        assert(t[k as int] == (table@[k as int].scene_key@, table@[k as int].asset_path@));
        if str_eq(table[k].scene_key.as_str(), key) {
            assert(registered_path_from(t, key@, k as int) == Some(t[k as int].1));
            return Some(table[k].asset_path.clone());
        }
        k = k + 1;
    }
    None
}

/// One preload relationship: while `owner` is on the stack, `targets` are kept warm.
pub struct ScenePreloadGroup {
    pub owner: SceneSource,
    pub targets: Vec<SceneSource>,
}

/// The mathematical form of a list of scene sources.
pub open spec fn sources_view(sources: Seq<SceneSource>) -> Seq<stack::SceneSourceModel> {
    sources.map_values(|s: SceneSource| s@)
}

/// The mathematical form of a list of preload groups.
pub open spec fn preload_groups_view(groups: Seq<ScenePreloadGroup>) -> Seq<
    (stack::SceneSourceModel, Seq<stack::SceneSourceModel>),
> {
    groups.map_values(|g: ScenePreloadGroup| (g.owner@, sources_view(g.targets@)))
}

/// A `.bsn` scene source, mathematically.
pub open spec fn bsn(key: &'static str) -> stack::SceneSourceModel {
    stack::SceneSourceModel::BsnScene(key@)
}

/// The scenes kept warm while the main-menu root runs: both splashes, the
/// main menu and the options menu.
pub open spec fn main_menu_preload_group() -> Seq<stack::SceneSourceModel> {
    seq![
        bsn(PIXEL_PERFECT_SPLASH_SCENE),
        bsn(BEVY_SPLASH_SCENE),
        bsn(MAIN_MENU_SCENE),
        bsn(OPTIONS_MENU_SCENE),
    ]
}

/// LastBeacon's preload relationships, in registration order.
pub open spec fn preload_table() -> Seq<(stack::SceneSourceModel, Seq<stack::SceneSourceModel>)> {
    seq![
        (stack::SceneSourceModel::Runtime(MAIN_MENU_ROOT_SCENE@), main_menu_preload_group()),
        (
            bsn(BEACON_SCENE),
            seq![
                bsn(DASHBOARD_SCENE),
                bsn(HANGAR_SCENE),
                bsn(GARAGE_SCENE),
                bsn(MISSION_CONTROL_SCENE),
                bsn(FABRICATION_SCENE),
                bsn(SILO_UPGRADES_SCENE),
                bsn(OPTIONS_MENU_SCENE),
            ],
        ),
        (bsn(GAMEPLAY_LEVEL_SCENE), seq![bsn(PAUSE_MENU_SCENE), bsn(OPTIONS_MENU_SCENE)]),
        (bsn(PAUSE_MENU_SCENE), Seq::empty()),
    ]
}

fn push_source(sources: &mut Vec<SceneSource>, source: SceneSource)
    ensures
        sources_view(final(sources)@) == sources_view(old(sources)@).push(source@),
{
    sources.push(source);
    assert(sources_view(sources@) =~= sources_view(old(sources)@).push(source@));
}

/// The scenes the main-menu root preloads before its first splash, in order.
pub fn main_menu_preload_sources() -> (r: Vec<SceneSource>)
    ensures
        sources_view(r@) == main_menu_preload_group(),
{
    let mut sources: Vec<SceneSource> = Vec::new();
    push_source(&mut sources, SceneSource::bsn_scene(PIXEL_PERFECT_SPLASH_SCENE));
    push_source(&mut sources, SceneSource::bsn_scene(BEVY_SPLASH_SCENE));
    push_source(&mut sources, SceneSource::bsn_scene(MAIN_MENU_SCENE));
    push_source(&mut sources, SceneSource::bsn_scene(OPTIONS_MENU_SCENE));
    assert(sources_view(sources@) =~= main_menu_preload_group());
    sources
}

fn push_group(groups: &mut Vec<ScenePreloadGroup>, owner: SceneSource, targets: Vec<SceneSource>)
    ensures
        preload_groups_view(final(groups)@) == preload_groups_view(old(groups)@).push(
            (owner@, sources_view(targets@)),
        ),
{
    groups.push(ScenePreloadGroup { owner, targets });
    assert(preload_groups_view(groups@) =~= preload_groups_view(old(groups)@).push(
        (owner@, sources_view(targets@)),
    ));
}

/// The preload relationships LastBeacon registers to keep common UI
/// transitions warm, in registration order.
pub fn register_last_beacon_scene_preloads() -> (r: Vec<ScenePreloadGroup>)
    ensures
        preload_groups_view(r@) == preload_table(),
{
    let mut groups: Vec<ScenePreloadGroup> = Vec::new();
    push_group(
        &mut groups,
        SceneSource::runtime(MAIN_MENU_ROOT_SCENE),
        main_menu_preload_sources(),
    );
    let mut beacon_targets: Vec<SceneSource> = Vec::new();
    push_source(&mut beacon_targets, SceneSource::bsn_scene(DASHBOARD_SCENE));
    push_source(&mut beacon_targets, SceneSource::bsn_scene(HANGAR_SCENE));
    push_source(&mut beacon_targets, SceneSource::bsn_scene(GARAGE_SCENE));
    push_source(&mut beacon_targets, SceneSource::bsn_scene(MISSION_CONTROL_SCENE));
    push_source(&mut beacon_targets, SceneSource::bsn_scene(FABRICATION_SCENE));
    push_source(&mut beacon_targets, SceneSource::bsn_scene(SILO_UPGRADES_SCENE));
    push_source(&mut beacon_targets, SceneSource::bsn_scene(OPTIONS_MENU_SCENE));
    assert(sources_view(beacon_targets@) =~= preload_table()[1].1);
    push_group(&mut groups, SceneSource::bsn_scene(BEACON_SCENE), beacon_targets);
    let mut gameplay_targets: Vec<SceneSource> = Vec::new();
    push_source(&mut gameplay_targets, SceneSource::bsn_scene(PAUSE_MENU_SCENE));
    push_source(&mut gameplay_targets, SceneSource::bsn_scene(OPTIONS_MENU_SCENE));
    assert(sources_view(gameplay_targets@) =~= preload_table()[2].1);
    push_group(&mut groups, SceneSource::bsn_scene(GAMEPLAY_LEVEL_SCENE), gameplay_targets);
    let no_targets: Vec<SceneSource> = Vec::new();
    assert(sources_view(no_targets@) =~= Seq::empty());
    push_group(&mut groups, SceneSource::bsn_scene(PAUSE_MENU_SCENE), no_targets);
    assert(preload_groups_view(groups@) =~= preload_table());
    groups
}

/// Whether two scene sources are the same source.
pub fn same_source(a: &SceneSource, b: &SceneSource) -> (r: bool)
    ensures
        r == (a@ == b@),
{
    match (a, b) {
        (SceneSource::BsnScene { key: x }, SceneSource::BsnScene { key: y }) => str_eq(
            x.as_str(),
            y.as_str(),
        ),
        (SceneSource::Runtime { key: x }, SceneSource::Runtime { key: y }) => str_eq(
            x.as_str(),
            y.as_str(),
        ),
        _ => false,
    }
}

/// The targets of the first group of `table` owned by `owner`, from entry `k`
/// on; empty when no group is.
pub open spec fn preload_targets_from(
    table: Seq<(stack::SceneSourceModel, Seq<stack::SceneSourceModel>)>,
    owner: stack::SceneSourceModel,
    k: int,
) -> Seq<stack::SceneSourceModel>
    decreases table.len() - k,
{
    if k < 0 || k >= table.len() {
        Seq::empty()
    } else if table[k].0 == owner {
        table[k].1
    } else {
        preload_targets_from(table, owner, k + 1)
    }
}

fn clone_sources(sources: &Vec<SceneSource>) -> (r: Vec<SceneSource>)
    ensures
        sources_view(r@) == sources_view(sources@),
{
    let mut out: Vec<SceneSource> = Vec::new();
    let mut i: usize = 0;
    while i < sources.len()
        invariant
            i <= sources.len(),
            sources_view(out@) == sources_view(sources@.take(i as int)),
        decreases sources.len() - i,
    {
        push_source(&mut out, sources[i].clone_source());
        i = i + 1;
        assert(sources_view(sources@.take(i as int)) =~= sources_view(sources@.take(i - 1)).push(
            sources@[i - 1]@,
        ));
    }
    assert(sources@.take(sources.len() as int) =~= sources@);
    out
}

/// The scenes LastBeacon keeps preloaded while `owner` is on the stack.
pub fn scene_preload_targets(owner: &SceneSource) -> (r: Vec<SceneSource>)
    ensures
        sources_view(r@) == preload_targets_from(preload_table(), owner@, 0),
{
    let groups = register_last_beacon_scene_preloads();
    let ghost t = preload_table();
    let mut k: usize = 0;
    while k < groups.len()
        invariant
            k <= groups.len(),
            preload_groups_view(groups@) == t,
            t == preload_table(),
            t.len() == groups.len(),
            preload_targets_from(t, owner@, 0) == preload_targets_from(t, owner@, k as int),
        decreases groups.len() - k,
    {
        assert(t[k as int] == (groups@[k as int].owner@, sources_view(groups@[k as int].targets@)));
        if same_source(&groups[k].owner, owner) {
            assert(preload_targets_from(t, owner@, k as int) == t[k as int].1);
            return clone_sources(&groups[k].targets);
        }
        k = k + 1;
    }
    let r: Vec<SceneSource> = Vec::new();
    assert(sources_view(r@) =~= Seq::<stack::SceneSourceModel>::empty());
    r
}

/// Opening `source` with stack key `key` and presentation `presentation`, mathematically.
pub open spec fn open_model(
    source: stack::SceneSourceModel,
    key: Seq<char>,
    presentation: stack::ScenePresentation,
) -> stack::SceneCommandModel {
    stack::SceneCommandModel::Open {
        source,
        options: stack::OpenSceneOptionsModel { key: Some(key), presentation: Some(presentation) },
    }
}

/// The commands that open LastBeacon's first scene: clear the stack, then
/// open the main-menu root fullscreen under the startup stack key.
pub open spec fn default_startup_commands() -> Seq<stack::SceneCommandModel> {
    seq![
        stack::SceneCommandModel::Clear,
        open_model(
            stack::SceneSourceModel::Runtime(MAIN_MENU_ROOT_SCENE@),
            STARTUP_SPLASH_STACK_KEY@,
            stack::ScenePresentation::Fullscreen,
        ),
    ]
}

/// The scene-stack commands that open LastBeacon when no startup override is given.
pub fn default_startup_scene_commands() -> (r: Vec<SceneCommand>)
    ensures
        stack::commands_view(r@) == default_startup_commands(),
{
    let mut commands: Vec<SceneCommand> = Vec::new();
    push_command(&mut commands, SceneCommand::Clear);
    let options = OpenSceneOptions::new().with_key(STARTUP_SPLASH_STACK_KEY).with_presentation(
        stack::ScenePresentation::Fullscreen,
    );
    push_command(
        &mut commands,
        SceneCommand::open_with_options(SceneSource::runtime(MAIN_MENU_ROOT_SCENE), options),
    );
    assert(stack::commands_view(commands@) =~= default_startup_commands());
    commands
}

/// The commands that make `page_key` the selected Beacon page: close the
/// current page entry by its stack key, keeping the shell, then open the page
/// as a non-blocking overlay under that key.
pub open spec fn beacon_page_commands(page_key: Seq<char>) -> Seq<stack::SceneCommandModel> {
    seq![
        stack::SceneCommandModel::Close(stack::SceneTargetModel::Key(BEACON_PAGE_STACK_KEY@)),
        open_model(
            stack::SceneSourceModel::BsnScene(page_key),
            BEACON_PAGE_STACK_KEY@,
            stack::ScenePresentation::NonBlockingOverlay,
        ),
    ]
}

/// Replaces the current Beacon page stack entry with `page_scene_key`.
pub fn open_beacon_page(page_scene_key: &str) -> (r: Vec<SceneCommand>)
    ensures
        stack::commands_view(r@) == beacon_page_commands(page_scene_key@),
{
    let mut commands: Vec<SceneCommand> = Vec::new();
    push_command(
        &mut commands,
        SceneCommand::Close(SceneTarget::Key(BEACON_PAGE_STACK_KEY.to_owned())),
    );
    let options = OpenSceneOptions::new().with_key(BEACON_PAGE_STACK_KEY).with_presentation(
        stack::ScenePresentation::NonBlockingOverlay,
    );
    push_command(
        &mut commands,
        SceneCommand::open_with_options(SceneSource::bsn_scene(page_scene_key), options),
    );
    assert(stack::commands_view(commands@) =~= beacon_page_commands(page_scene_key@));
    commands
}

/// Whether a command leaves the Beacon shell's stack entry in place: it
/// neither clears the stack nor closes any entry but the page entry.
pub open spec fn keeps_beacon_shell(command: stack::SceneCommandModel) -> bool {
    match command {
        stack::SceneCommandModel::Clear => false,
        stack::SceneCommandModel::ClearAndOpen(_) => false,
        stack::SceneCommandModel::Close(target) => target == stack::SceneTargetModel::Key(
            BEACON_PAGE_STACK_KEY@,
        ),
        _ => true,
    }
}

/// Page navigation replaces only the page layer: whatever buttons are
/// pressed, no command it issues clears the stack or closes the Beacon
/// shell's entry.
pub proof fn law_page_navigation_keeps_the_beacon_shell(changes: Seq<BeaconPageButtonChange>)
    ensures
        forall|i: int|
            0 <= i < page_navigation_commands(changes).len() ==> keeps_beacon_shell(
                #[trigger] page_navigation_commands(changes)[i],
            ),
        BEACON_PAGE_STACK_KEY@ != BEACON_SHELL_STACK_KEY@,
    decreases changes.len(),
{
    reveal_strlit("beacon-page");
    reveal_strlit("beacon-shell");
    assert(BEACON_PAGE_STACK_KEY@.len() != BEACON_SHELL_STACK_KEY@.len() || BEACON_PAGE_STACK_KEY@[7]
        != BEACON_SHELL_STACK_KEY@[7]);
    if changes.len() > 0 {
        law_page_navigation_keeps_the_beacon_shell(changes.drop_last());
        let before = page_navigation_commands(changes.drop_last());
        let last = page_button_commands(
            changes.last().button.scene_key@,
            changes.last().interaction,
        );
        assert forall|i: int|
            0 <= i < page_navigation_commands(changes).len() implies keeps_beacon_shell(
            #[trigger] page_navigation_commands(changes)[i],
        ) by {
            if i < before.len() {
                assert(page_navigation_commands(changes)[i] == before[i]);
            } else {
                assert(page_navigation_commands(changes)[i] == last[i - before.len()]);
            }
        }
    }
}

/// Button data that replaces the current Beacon page while leaving the shell in place.
#[derive(Clone, Debug, Default, PartialEq, Eq)]
pub struct LastBeaconBeaconPageButton {
    /// Scene key for the page that should become the selected Beacon tab content.
    pub scene_key: String,
}

/// A Beacon page button whose interaction changed this frame.
pub struct BeaconPageButtonChange {
    pub button: LastBeaconBeaconPageButton,
    pub interaction: ButtonInteraction,
}

/// The commands one changed page button issues: a press on a button whose
/// trimmed scene key is non-empty opens that page; anything else issues none.
pub open spec fn page_button_commands(scene_key: Seq<char>, interaction: ButtonInteraction) -> Seq<
    stack::SceneCommandModel,
> {
    if interaction == ButtonInteraction::Pressed && crate::text::trimmed(scene_key).len() > 0 {
        beacon_page_commands(crate::text::trimmed(scene_key))
    } else {
        Seq::empty()
    }
}

/// The commands a list of changed page buttons issues, button by button.
pub open spec fn page_navigation_commands(changes: Seq<BeaconPageButtonChange>) -> Seq<
    stack::SceneCommandModel,
>
    decreases changes.len(),
{
    if changes.len() == 0 {
        Seq::empty()
    } else {
        page_navigation_commands(changes.drop_last()) + page_button_commands(
            changes.last().button.scene_key@,
            changes.last().interaction,
        )
    }
}

/// Replaces the current Beacon page with the page of each pressed button.
pub fn navigate_last_beacon_beacon_pages(changes: &Vec<BeaconPageButtonChange>) -> (r: Vec<
    SceneCommand,
>)
    ensures
        stack::commands_view(r@) == page_navigation_commands(changes@),
        (forall|i: int|
            0 <= i < changes@.len() ==> #[trigger] changes@[i].interaction
                != ButtonInteraction::Pressed) ==> r@.len() == 0,
{
    let mut commands: Vec<SceneCommand> = Vec::new();
    let mut i: usize = 0;
    while i < changes.len()
        invariant
            i <= changes.len(),
            stack::commands_view(commands@) == page_navigation_commands(changes@.take(i as int)),
        decreases changes.len() - i,
    {
        let change = &changes[i];
        assert(changes@.take(i + 1).drop_last() =~= changes@.take(i as int));
        if change.interaction == ButtonInteraction::Pressed {
            let page_scene_key = trim(change.button.scene_key.as_str());
            if !page_scene_key.as_str().is_empty() {
                let page = open_beacon_page(page_scene_key.as_str());
                append_commands(&mut commands, &page);
            }
        }
        i = i + 1;
    }
    assert(changes@.take(changes.len() as int) =~= changes@);
    proof {
        if forall|i: int|
            0 <= i < changes@.len() ==> #[trigger] changes@[i].interaction
                != ButtonInteraction::Pressed {
            law_only_pressed_page_buttons_navigate(changes@);
            assert(stack::commands_view(commands@).len() == commands@.len());
        }
    }
    commands
}

/// Page-button changes none of which is a press (hovering, the pointer
/// leaving) issue no scene command at all.
pub proof fn law_only_pressed_page_buttons_navigate(changes: Seq<BeaconPageButtonChange>)
    requires
        forall|i: int|
            0 <= i < changes.len() ==> #[trigger] changes[i].interaction
                != ButtonInteraction::Pressed,
    ensures
        page_navigation_commands(changes).len() == 0,
    decreases changes.len(),
{
    if changes.len() > 0 {
        assert(changes.last().interaction == changes[changes.len() - 1].interaction);
        law_only_pressed_page_buttons_navigate(changes.drop_last());
    }
}

/// A scene the scene stack started loading, with the id of its stack entry.
pub struct SceneLoadRequested {
    pub scene_id: u64,
    pub source: SceneSource,
}

/// What LastBeacon's scene drivers do for newly requested scenes: the stack
/// entries that get a new main-menu root driver, and the scene commands issued.
pub struct SceneDriverPlan {
    pub main_menu_root_owners: Vec<u64>,
    pub commands: Vec<SceneCommand>,
}

/// The entries that get a main-menu root driver: those whose source key is
/// the main-menu root scene key.
pub open spec fn driver_owners(requests: Seq<SceneLoadRequested>) -> Seq<u64>
    decreases requests.len(),
{
    if requests.len() == 0 {
        Seq::empty()
    } else {
        let before = driver_owners(requests.drop_last());
        if stack::source_key(requests.last().source@) == MAIN_MENU_ROOT_SCENE@ {
            before.push(requests.last().scene_id)
        } else {
            before
        }
    }
}

/// The commands the drivers issue: each request for the Beacon shell opens the
/// dashboard as its first page.
pub open spec fn driver_commands(requests: Seq<SceneLoadRequested>) -> Seq<stack::SceneCommandModel>
    decreases requests.len(),
{
    if requests.len() == 0 {
        Seq::empty()
    } else {
        let before = driver_commands(requests.drop_last());
        let key = stack::source_key(requests.last().source@);
        if key != MAIN_MENU_ROOT_SCENE@ && key == BEACON_SCENE@ {
            before + beacon_page_commands(DASHBOARD_SCENE@)
        } else {
            before
        }
    }
}

/// Decides the runtime scene drivers for this frame's scene load requests:
/// the main-menu root scene gets a main-menu root driver owned by its entry,
/// and the Beacon shell opens the dashboard page. Other scenes need none.
pub fn spawn_requested_last_beacon_scene_drivers(requests: &Vec<SceneLoadRequested>) -> (r:
    SceneDriverPlan)
    ensures
        r.main_menu_root_owners@ == driver_owners(requests@),
        stack::commands_view(r.commands@) == driver_commands(requests@),
{
    let mut owners: Vec<u64> = Vec::new();
    let mut commands: Vec<SceneCommand> = Vec::new();
    let mut i: usize = 0;
    while i < requests.len()
        invariant
            i <= requests.len(),
            owners@ == driver_owners(requests@.take(i as int)),
            stack::commands_view(commands@) == driver_commands(requests@.take(i as int)),
        decreases requests.len() - i,
    {
        let request = &requests[i];
        assert(requests@.take(i + 1).drop_last() =~= requests@.take(i as int));
        let scene_key = stack::scene_source_key(&request.source);
        if str_eq(scene_key.as_str(), MAIN_MENU_ROOT_SCENE) {
            owners.push(request.scene_id);
        } else if str_eq(scene_key.as_str(), BEACON_SCENE) {
            let page = open_beacon_page(DASHBOARD_SCENE);
            append_commands(&mut commands, &page);
        }
        i = i + 1;
    }
    assert(requests@.take(requests.len() as int) =~= requests@);
    SceneDriverPlan { main_menu_root_owners: owners, commands }
}

} // verus!
