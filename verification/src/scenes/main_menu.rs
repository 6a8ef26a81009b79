//! The main-menu root's preload and splash sequence: wait until the whole
//! main-menu preload group is ready, show the Pixel Perfect splash, then the
//! Bevy splash, then hand over to the main menu.
use vstd::prelude::*;

use crate::scenes::stack::{
    push_command, OpenSceneOptions, SceneCommand, SceneSource, SceneTarget,
};
use crate::scenes::{
    main_menu_preload_sources, BEVY_SPLASH_SCENE, MAIN_MENU_SCENE, PIXEL_PERFECT_SPLASH_SCENE,
};
use crate::text::str_eq;

verus! {

/// Stack key of the first splash.
pub const PIXEL_PERFECT_SPLASH_STACK_KEY: &'static str = "main-menu-pixel-perfect-splash";
/// Stack key of the second splash.
pub const BEVY_SPLASH_STACK_KEY: &'static str = "main-menu-bevy-splash";

/// Where a main-menu root is in its splash sequence.
#[derive(Clone, Copy, Debug, PartialEq, Eq, Structural)]
pub enum LastBeaconMainMenuRootPhase {
    Starting,
    PixelPerfectSplash,
    BevySplash,
    MainMenu,
}

/// Runtime driver for the main-menu domain's preload and splash sequence.
#[derive(Clone, Copy, Debug, PartialEq, Eq, Structural)]
pub struct LastBeaconMainMenuRoot;

/// A splash scene that reported completion, with its scene-stack entry.
pub struct CompletedSplash {
    pub scene_id: u64,
    pub source: SceneSource,
}

/// How far along the sequence a phase is.
pub open spec fn phase_rank(phase: LastBeaconMainMenuRootPhase) -> int {
    match phase {
        LastBeaconMainMenuRootPhase::Starting => 0,
        LastBeaconMainMenuRootPhase::PixelPerfectSplash => 1,
        LastBeaconMainMenuRootPhase::BevySplash => 2,
        LastBeaconMainMenuRootPhase::MainMenu => 3,
    }
}

/// Whether every preload of the group reported ready.
pub open spec fn all_ready(preload_ready: Seq<bool>) -> bool {
    forall|i: int| 0 <= i < preload_ready.len() ==> #[trigger] preload_ready[i]
}

/// A root's phase after the start check.
pub open spec fn start_phase(phase: LastBeaconMainMenuRootPhase, ready: bool) -> LastBeaconMainMenuRootPhase {
    if phase == LastBeaconMainMenuRootPhase::Starting && ready {
        LastBeaconMainMenuRootPhase::PixelPerfectSplash
    } else {
        phase
    }
}

/// Opening the first splash as an input-blocking overlay.
pub open spec fn open_first_splash() -> crate::scenes::stack::SceneCommandModel {
    crate::scenes::open_model(
        crate::scenes::bsn(PIXEL_PERFECT_SPLASH_SCENE),
        PIXEL_PERFECT_SPLASH_STACK_KEY@,
        crate::scenes::stack::ScenePresentation::InputBlockingOverlay,
    )
}

/// The commands of the start check, root by root.
pub open spec fn start_commands(phases: Seq<LastBeaconMainMenuRootPhase>, ready: bool) -> Seq<
    crate::scenes::stack::SceneCommandModel,
>
    decreases phases.len(),
{
    if phases.len() == 0 {
        Seq::empty()
    } else if phases.last() == LastBeaconMainMenuRootPhase::Starting && ready {
        start_commands(phases.drop_last(), ready).push(open_first_splash())
    } else {
        start_commands(phases.drop_last(), ready)
    }
}

/// A root's phase after a splash with key `key` completed.
pub open spec fn splash_phase(phase: LastBeaconMainMenuRootPhase, key: Seq<char>) -> LastBeaconMainMenuRootPhase {
    if phase == LastBeaconMainMenuRootPhase::PixelPerfectSplash && key
        == PIXEL_PERFECT_SPLASH_SCENE@ {
        LastBeaconMainMenuRootPhase::BevySplash
    } else if phase == LastBeaconMainMenuRootPhase::BevySplash && key == BEVY_SPLASH_SCENE@ {
        LastBeaconMainMenuRootPhase::MainMenu
    } else {
        phase
    }
}

/// What one root does when the splash in entry `scene_id`, with key `key`,
/// completes: after the first splash it closes that entry and opens the
/// second; after the second it clears the stack and opens the main menu.
pub open spec fn splash_root_commands(phase: LastBeaconMainMenuRootPhase, key: Seq<char>, scene_id: u64) -> Seq<
    crate::scenes::stack::SceneCommandModel,
> {
    if phase == LastBeaconMainMenuRootPhase::PixelPerfectSplash && key
        == PIXEL_PERFECT_SPLASH_SCENE@ {
        seq![
            crate::scenes::stack::SceneCommandModel::Close(
                crate::scenes::stack::SceneTargetModel::Id(scene_id),
            ),
            crate::scenes::open_model(
                crate::scenes::bsn(BEVY_SPLASH_SCENE),
                BEVY_SPLASH_STACK_KEY@,
                crate::scenes::stack::ScenePresentation::InputBlockingOverlay,
            ),
        ]
    } else if phase == LastBeaconMainMenuRootPhase::BevySplash && key == BEVY_SPLASH_SCENE@ {
        seq![
            crate::scenes::stack::SceneCommandModel::ClearAndOpen(
                crate::scenes::bsn(MAIN_MENU_SCENE),
            ),
        ]
    } else {
        Seq::empty()
    }
}

/// The commands of one completed splash, root by root.
pub open spec fn splash_commands(phases: Seq<LastBeaconMainMenuRootPhase>, key: Seq<char>, scene_id: u64) -> Seq<
    crate::scenes::stack::SceneCommandModel,
>
    decreases phases.len(),
{
    if phases.len() == 0 {
        Seq::empty()
    } else {
        splash_commands(phases.drop_last(), key, scene_id) + splash_root_commands(
            phases.last(),
            key,
            scene_id,
        )
    }
}

/// Every root's phase after one completed splash.
pub open spec fn after_splash(phases: Seq<LastBeaconMainMenuRootPhase>, key: Seq<char>) -> Seq<
    LastBeaconMainMenuRootPhase,
> {
    Seq::new(phases.len(), |i: int| splash_phase(phases[i], key))
}

/// Every root's phase after the completed splashes `splashes`, in order.
pub open spec fn after_splashes(phases: Seq<LastBeaconMainMenuRootPhase>, splashes: Seq<CompletedSplash>) -> Seq<
    LastBeaconMainMenuRootPhase,
>
    decreases splashes.len(),
{
    if splashes.len() == 0 {
        phases
    } else {
        after_splash(
            after_splashes(phases, splashes.drop_last()),
            crate::scenes::stack::source_key(splashes.last().source@),
        )
    }
}

/// The commands of the completed splashes `splashes`, in order.
pub open spec fn splashes_commands(phases: Seq<LastBeaconMainMenuRootPhase>, splashes: Seq<CompletedSplash>) -> Seq<
    crate::scenes::stack::SceneCommandModel,
>
    decreases splashes.len(),
{
    if splashes.len() == 0 {
        Seq::empty()
    } else {
        splashes_commands(phases, splashes.drop_last()) + splash_commands(
            after_splashes(phases, splashes.drop_last()),
            crate::scenes::stack::source_key(splashes.last().source@),
            splashes.last().scene_id,
        )
    }
}

/// Every root's phase after the start check.
pub open spec fn after_start(phases: Seq<LastBeaconMainMenuRootPhase>, ready: bool) -> Seq<
    LastBeaconMainMenuRootPhase,
> {
    Seq::new(phases.len(), |i: int| start_phase(phases[i], ready))
}

/// Preloading every source of the main-menu preload group.
pub open spec fn preload_commands() -> Seq<crate::scenes::stack::SceneCommandModel> {
    crate::scenes::main_menu_preload_group().map_values(
        |s: crate::scenes::stack::SceneSourceModel|
            crate::scenes::stack::SceneCommandModel::Preload(s),
    )
}

proof fn lemma_after_splash_keeps_order(phases: Seq<LastBeaconMainMenuRootPhase>, key: Seq<char>)
    ensures
        after_splash(phases, key).len() == phases.len(),
        forall|i: int|
            0 <= i < phases.len() ==> phase_rank(#[trigger] after_splash(phases, key)[i])
                >= phase_rank(phases[i]),
        forall|i: int|
            0 <= i < phases.len() && phases[i] == LastBeaconMainMenuRootPhase::Starting
                ==> #[trigger] after_splash(phases, key)[i] == LastBeaconMainMenuRootPhase::Starting,
{
}

proof fn lemma_after_splashes_only_advance(
    phases: Seq<LastBeaconMainMenuRootPhase>,
    splashes: Seq<CompletedSplash>,
)
    ensures
        after_splashes(phases, splashes).len() == phases.len(),
        forall|i: int|
            0 <= i < phases.len() ==> phase_rank(#[trigger] after_splashes(phases, splashes)[i])
                >= phase_rank(phases[i]),
        forall|i: int|
            0 <= i < phases.len() && phases[i] == LastBeaconMainMenuRootPhase::Starting
                ==> #[trigger] after_splashes(phases, splashes)[i]
                == LastBeaconMainMenuRootPhase::Starting,
    decreases splashes.len(),
{
    if splashes.len() > 0 {
        let before = after_splashes(phases, splashes.drop_last());
        let key = crate::scenes::stack::source_key(splashes.last().source@);
        lemma_after_splashes_only_advance(phases, splashes.drop_last());
        lemma_after_splash_keeps_order(before, key);
        assert forall|i: int| 0 <= i < phases.len() implies phase_rank(
            #[trigger] after_splashes(phases, splashes)[i],
        ) >= phase_rank(phases[i]) by {
            assert(phase_rank(after_splash(before, key)[i]) >= phase_rank(before[i]));
        }
        assert forall|i: int|
            0 <= i < phases.len() && phases[i]
                == LastBeaconMainMenuRootPhase::Starting implies #[trigger] after_splashes(
            phases,
            splashes,
        )[i] == LastBeaconMainMenuRootPhase::Starting by {
            assert(before[i] == LastBeaconMainMenuRootPhase::Starting);
        }
    }
}

proof fn lemma_no_start_commands_until_ready(phases: Seq<LastBeaconMainMenuRootPhase>)
    ensures
        start_commands(phases, false) == Seq::<crate::scenes::stack::SceneCommandModel>::empty(),
    decreases phases.len(),
{
    if phases.len() > 0 {
        lemma_no_start_commands_until_ready(phases.drop_last());
    }
}

proof fn lemma_splash_commands_never_open_the_first_splash(
    phases: Seq<LastBeaconMainMenuRootPhase>,
    key: Seq<char>,
    scene_id: u64,
)
    ensures
        !splash_commands(phases, key, scene_id).contains(open_first_splash()),
    decreases phases.len(),
{
    reveal_strlit("main-menu-pixel-perfect-splash");
    reveal_strlit("main-menu-bevy-splash");
    if phases.len() > 0 {
        lemma_splash_commands_never_open_the_first_splash(phases.drop_last(), key, scene_id);
        let before = splash_commands(phases.drop_last(), key, scene_id);
        let step = splash_root_commands(phases.last(), key, scene_id);
        assert(PIXEL_PERFECT_SPLASH_STACK_KEY@.len() != BEVY_SPLASH_STACK_KEY@.len());
        assert forall|k: int| 0 <= k < step.len() implies step[k] != open_first_splash() by {}
        if splash_commands(phases, key, scene_id).contains(open_first_splash()) {
            let k = choose|k: int|
                0 <= k < splash_commands(phases, key, scene_id).len() && splash_commands(
                    phases,
                    key,
                    scene_id,
                )[k] == open_first_splash();
            if k < before.len() {
                assert(before[k] == open_first_splash());
            } else {
                assert(step[k - before.len()] == open_first_splash());
            }
        }
    }
}

proof fn lemma_splashes_commands_never_open_the_first_splash(
    phases: Seq<LastBeaconMainMenuRootPhase>,
    splashes: Seq<CompletedSplash>,
)
    ensures
        !splashes_commands(phases, splashes).contains(open_first_splash()),
    decreases splashes.len(),
{
    if splashes.len() > 0 {
        lemma_splashes_commands_never_open_the_first_splash(phases, splashes.drop_last());
        let before = splashes_commands(phases, splashes.drop_last());
        let step = splash_commands(
            after_splashes(phases, splashes.drop_last()),
            crate::scenes::stack::source_key(splashes.last().source@),
            splashes.last().scene_id,
        );
        lemma_splash_commands_never_open_the_first_splash(
            after_splashes(phases, splashes.drop_last()),
            crate::scenes::stack::source_key(splashes.last().source@),
            splashes.last().scene_id,
        );
        if splashes_commands(phases, splashes).contains(open_first_splash()) {
            let k = choose|k: int|
                0 <= k < splashes_commands(phases, splashes).len() && splashes_commands(
                    phases,
                    splashes,
                )[k] == open_first_splash();
            if k < before.len() {
                assert(before[k] == open_first_splash());
            } else {
                assert(step[k - before.len()] == open_first_splash());
            }
        }
    }
}

/// Whether every entry of `preload_ready` is `true`.
fn every_preload_ready(preload_ready: &Vec<bool>) -> (r: bool)
    ensures
        r == all_ready(preload_ready@),
{
    let mut i: usize = 0;
    while i < preload_ready.len()
        invariant
            i <= preload_ready.len(),
            forall|k: int| 0 <= k < i ==> #[trigger] preload_ready@[k],
        decreases preload_ready.len() - i,
    {
        if !preload_ready[i] {
            return false;
        }
        i = i + 1;
    }
    true
}

/// Advances the main-menu roots by one frame.
///
/// `preload_ready` holds, for each source of the main-menu preload group in
/// order, whether it is prepared; `completed_splashes` holds the splash scenes that
/// reported completion this frame, in order; `phases` holds each root's phase.
/// The returned commands first preload the whole group; then every root still
/// starting opens the first splash, but only once every preload is ready;
/// then each completed splash moves each root one step, as
/// [`splash_root_commands`] says.
pub fn advance_last_beacon_main_menu_roots(
    preload_ready: &Vec<bool>,
    completed_splashes: &Vec<CompletedSplash>,
    phases: &mut Vec<LastBeaconMainMenuRootPhase>,
) -> (r: Vec<SceneCommand>)
    requires
        preload_ready@.len() == crate::scenes::main_menu_preload_group().len(),
    ensures
        crate::scenes::stack::commands_view(r@) == preload_commands() + start_commands(
            old(phases)@,
            all_ready(preload_ready@),
        ) + splashes_commands(
            after_start(old(phases)@, all_ready(preload_ready@)),
            completed_splashes@,
        ),
        final(phases)@ == after_splashes(
            after_start(old(phases)@, all_ready(preload_ready@)),
            completed_splashes@,
        ),
        final(phases)@.len() == old(phases)@.len(),
        forall|i: int|
            0 <= i < old(phases)@.len() ==> phase_rank(#[trigger] final(phases)@[i]) >= phase_rank(
                old(phases)@[i],
            ),
        !all_ready(preload_ready@) ==> forall|i: int|
            0 <= i < old(phases)@.len() && old(phases)@[i] == LastBeaconMainMenuRootPhase::Starting
                ==> #[trigger] final(phases)@[i] == LastBeaconMainMenuRootPhase::Starting,
        (exists|p: int| 0 <= p < preload_ready@.len() && !#[trigger] preload_ready@[p]) ==> {
            &&& forall|i: int|
                0 <= i < old(phases)@.len() && old(phases)@[i]
                    == LastBeaconMainMenuRootPhase::Starting ==> #[trigger] final(phases)@[i]
                    == LastBeaconMainMenuRootPhase::Starting
            &&& !crate::scenes::stack::commands_view(r@).contains(open_first_splash())
        },
        (forall|p: int| 0 <= p < preload_ready@.len() ==> #[trigger] preload_ready@[p])
            ==> forall|i: int|
            0 <= i < old(phases)@.len() && old(phases)@[i] == LastBeaconMainMenuRootPhase::Starting
                ==> #[trigger] final(phases)@[i] != LastBeaconMainMenuRootPhase::Starting,
{
    let ghost initial = phases@;
    let mut commands: Vec<SceneCommand> = Vec::new();
    let preload_sources = main_menu_preload_sources();
    let mut p: usize = 0;
    while p < preload_sources.len()
        invariant
            p <= preload_sources.len(),
            crate::scenes::sources_view(preload_sources@) == crate::scenes::main_menu_preload_group(),
            crate::scenes::stack::commands_view(commands@) == preload_commands().take(p as int),
        decreases preload_sources.len() - p,
    {
        assert(preload_sources@[p as int]@ == crate::scenes::main_menu_preload_group()[p as int]);
        push_command(&mut commands, SceneCommand::preload(preload_sources[p].clone_source()));
        p = p + 1;
        assert(preload_commands().take(p as int) =~= preload_commands().take(p - 1).push(
            preload_commands()[p - 1],
        ));
    }
    assert(preload_commands().take(4) =~= preload_commands());
    let ready = every_preload_ready(preload_ready);
    let ghost base = crate::scenes::stack::commands_view(commands@);
    let mut j: usize = 0;
    while j < phases.len()
        invariant
            j <= phases.len(),
            phases@.len() == initial.len(),
            forall|k: int| 0 <= k < j ==> phases@[k] == start_phase(initial[k], ready),
            forall|k: int| j <= k < initial.len() ==> phases@[k] == initial[k],
            crate::scenes::stack::commands_view(commands@) == base + start_commands(
                initial.take(j as int),
                ready,
            ),
        decreases phases.len() - j,
    {
        assert(initial.take(j + 1).drop_last() =~= initial.take(j as int));
        if phases[j] == LastBeaconMainMenuRootPhase::Starting && ready {
            let options = OpenSceneOptions::new().with_key(
                PIXEL_PERFECT_SPLASH_STACK_KEY,
            ).with_presentation(crate::scenes::stack::ScenePresentation::InputBlockingOverlay);
            push_command(
                &mut commands,
                SceneCommand::open_with_options(
                    SceneSource::bsn_scene(PIXEL_PERFECT_SPLASH_SCENE),
                    options,
                ),
            );
            phases.set(j, LastBeaconMainMenuRootPhase::PixelPerfectSplash);
        }
        j = j + 1;
    }
    assert(initial.take(initial.len() as int) =~= initial);
    assert(phases@ =~= after_start(initial, ready));
    let ghost started = phases@;
    let ghost start_base = crate::scenes::stack::commands_view(commands@);
    let mut m: usize = 0;
    while m < completed_splashes.len()
        invariant
            m <= completed_splashes.len(),
            phases@ == after_splashes(started, completed_splashes@.take(m as int)),
            crate::scenes::stack::commands_view(commands@) == start_base + splashes_commands(
                started,
                completed_splashes@.take(m as int),
            ),
        decreases completed_splashes.len() - m,
    {
        let splash = &completed_splashes[m];
        let key = crate::scenes::stack::scene_source_key(&splash.source);
        let ghost before = phases@;
        let ghost round_base = crate::scenes::stack::commands_view(commands@);
        proof {
            lemma_after_splashes_only_advance(started, completed_splashes@.take(m as int));
        }
        let mut k: usize = 0;
        while k < phases.len()
            invariant
                k <= phases.len(),
                phases@.len() == before.len(),
                forall|q: int| 0 <= q < k ==> phases@[q] == splash_phase(before[q], key@),
                forall|q: int| k <= q < before.len() ==> phases@[q] == before[q],
                crate::scenes::stack::commands_view(commands@) == round_base + splash_commands(
                    before.take(k as int),
                    key@,
                    splash.scene_id,
                ),
            decreases phases.len() - k,
        {
            assert(before.take(k + 1).drop_last() =~= before.take(k as int));
            let phase = phases[k];
            let ghost step = splash_root_commands(before[k as int], key@, splash.scene_id);
            let ghost prior = crate::scenes::stack::commands_view(commands@);
            if phase == LastBeaconMainMenuRootPhase::PixelPerfectSplash && str_eq(
                key.as_str(),
                PIXEL_PERFECT_SPLASH_SCENE,
            ) {
                push_command(&mut commands, SceneCommand::Close(SceneTarget::Id(splash.scene_id)));
                let options = OpenSceneOptions::new().with_key(
                    BEVY_SPLASH_STACK_KEY,
                ).with_presentation(crate::scenes::stack::ScenePresentation::InputBlockingOverlay);
                push_command(
                    &mut commands,
                    SceneCommand::open_with_options(
                        SceneSource::bsn_scene(BEVY_SPLASH_SCENE),
                        options,
                    ),
                );
                phases.set(k, LastBeaconMainMenuRootPhase::BevySplash);
                assert(crate::scenes::stack::commands_view(commands@) =~= prior + step);
            } else if phase == LastBeaconMainMenuRootPhase::BevySplash && str_eq(
                key.as_str(),
                BEVY_SPLASH_SCENE,
            ) {
                push_command(
                    &mut commands,
                    SceneCommand::clear_and_open(SceneSource::bsn_scene(MAIN_MENU_SCENE)),
                );
                phases.set(k, LastBeaconMainMenuRootPhase::MainMenu);
                assert(crate::scenes::stack::commands_view(commands@) =~= prior + step);
            } else {
                assert(step =~= Seq::empty());
                assert(prior + step =~= prior);
            }
            k = k + 1;
            assert(round_base + splash_commands(before.take(k as int), key@, splash.scene_id)
                =~= round_base + splash_commands(before.take(k - 1), key@, splash.scene_id) + step);
        }
        assert(before.take(before.len() as int) =~= before);
        assert(completed_splashes@.take(m + 1).drop_last() =~= completed_splashes@.take(m as int));
        assert(completed_splashes@.take(m + 1).last() == completed_splashes@[m as int]);
        m = m + 1;
        assert(phases@ =~= after_splashes(started, completed_splashes@.take(m as int)));
    }
    assert(completed_splashes@.take(completed_splashes.len() as int) =~= completed_splashes@);
    proof {
        lemma_after_splashes_only_advance(started, completed_splashes@);
        assert forall|i: int| 0 <= i < initial.len() implies phase_rank(
            #[trigger] phases@[i],
        ) >= phase_rank(initial[i]) by {
            assert(phase_rank(started[i]) >= phase_rank(initial[i]));
        }
        if exists|p: int| 0 <= p < preload_ready@.len() && !#[trigger] preload_ready@[p] {
            let p = choose|p: int| 0 <= p < preload_ready@.len() && !#[trigger] preload_ready@[p];
            assert(!preload_ready@[p]);
            assert(!ready);
            lemma_no_start_commands_until_ready(initial);
            lemma_splashes_commands_never_open_the_first_splash(started, completed_splashes@);
            let all = crate::scenes::stack::commands_view(commands@);
            let pre = preload_commands();
            let tail = splashes_commands(started, completed_splashes@);
            assert(all =~= pre + tail);
            if all.contains(open_first_splash()) {
                let k = choose|k: int| 0 <= k < all.len() && all[k] == open_first_splash();
                if k < pre.len() {
                    assert(pre[k] is Preload);
                } else {
                    assert(tail[k - pre.len()] == open_first_splash());
                }
            }
        }
        if forall|p: int| 0 <= p < preload_ready@.len() ==> #[trigger] preload_ready@[p] {
            assert(ready);
            assert forall|i: int|
                0 <= i < initial.len() && initial[i]
                    == LastBeaconMainMenuRootPhase::Starting implies #[trigger] phases@[i]
                != LastBeaconMainMenuRootPhase::Starting by {
                assert(started[i] == LastBeaconMainMenuRootPhase::PixelPerfectSplash);
                assert(phase_rank(phases@[i]) >= phase_rank(started[i])) by {
                    lemma_after_splashes_only_advance(started, completed_splashes@);
                }
            }
        }
    }
    commands
}

} // verus!
