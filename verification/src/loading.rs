//! The lifecycle of asset-backed slots -- reusable `.bsn` widget slots and
//! vehicle module instances -- and of the shared UI fonts.
//!
//! A slot with a non-empty asset path is queued and stays pending until its
//! asset resolves and applies onto the slot. Every settled outcome, success
//! or failure, ends the pending state; a widget slot that hid its owning
//! scene while loading always reveals it again, so one broken widget never
//! hides a scene forever.
use vstd::prelude::*;

use crate::text::concatenated;

verus! {

/// A slot asking for a reusable `.bsn` widget asset to be applied to it.
#[derive(Clone, Debug, Default, PartialEq, Eq)]
pub struct LastBeaconBsnWidget {
    /// Asset-relative path to the `.bsn` widget that should be applied to this slot.
    pub asset_path: String,
}

/// An entity whose `.bsn` vehicle module definition is applied onto itself.
#[derive(Clone, Debug, Default, PartialEq, Eq)]
pub struct LastBeaconVehicleModuleInstance {
    /// Asset-relative path to the module's `.bsn` definition.
    pub asset_path: String,
}

/// A slot queued for loading: the asset to load, and whether its owning
/// scene is kept hidden until the slot settles.
pub struct QueuedSlot {
    pub asset_path: String,
    pub hides_owning_scene: bool,
}

/// Queues a newly authored widget slot: a slot with an empty asset path is
/// skipped; otherwise its asset loads, and a slot that belongs to a scene
/// keeps that scene hidden until the widget settles.
pub fn queue_last_beacon_bsn_widgets(widget_slot: &LastBeaconBsnWidget, has_scene_owner: bool) -> (r:
    Option<QueuedSlot>)
    ensures
        widget_slot.asset_path@.len() == 0 ==> r is None,
        widget_slot.asset_path@.len() > 0 ==> (r matches Some(q) && q.asset_path@
            == widget_slot.asset_path@ && q.hides_owning_scene == has_scene_owner),
{
    if widget_slot.asset_path.as_str().is_empty() {
        return None;
    }
    Some(
        QueuedSlot {
            asset_path: widget_slot.asset_path.clone(),
            hides_owning_scene: has_scene_owner,
        },
    )
}

/// Queues a newly authored module instance: an empty asset path is skipped;
/// otherwise its module definition loads. Module instances hide no scene.
pub fn queue_last_beacon_vehicle_module_instances(
    module_instance: &LastBeaconVehicleModuleInstance,
) -> (r: Option<QueuedSlot>)
    ensures
        module_instance.asset_path@.len() == 0 ==> r is None,
        module_instance.asset_path@.len() > 0 ==> (r matches Some(q) && q.asset_path@
            == module_instance.asset_path@ && !q.hides_owning_scene),
{
    if module_instance.asset_path.as_str().is_empty() {
        return None;
    }
    Some(QueuedSlot { asset_path: module_instance.asset_path.clone(), hides_owning_scene: false })
}

/// How a pending slot settles: its pending state always ends; whether the
/// owning scene's loading marker is cleared; and the failure reason, if any,
/// which is recorded on the slot.
pub struct SlotSettlement {
    pub clears_scene_loading: bool,
    pub failure: Option<String>,
}

/// What a pending slot does after an attempt to resolve its asset.
pub enum PendingSlotStep {
    /// The asset is not ready yet: try again next frame.
    Wait,
    /// The asset is ready: apply it onto the slot.
    Apply,
    /// The slot settles without applying.
    Settle(SlotSettlement),
}

/// The failure reason of a widget whose asset failed to resolve.
pub open spec fn widget_resolve_failure(asset_path: Seq<char>, error: Seq<char>) -> Seq<char> {
    "Failed to resolve Last Beacon BSN widget `"@ + asset_path + "`: "@ + error
}

/// The failure reason of a widget whose asset failed to apply onto its slot.
pub open spec fn widget_apply_failure(asset_path: Seq<char>, slot: Seq<char>, error: Seq<char>) -> Seq<char> {
    "Failed to apply Last Beacon BSN widget `"@ + asset_path + "` to "@ + slot + ": "@ + error
}

/// The failure reason of a module instance whose definition failed to resolve.
pub open spec fn module_resolve_failure(error: Seq<char>) -> Seq<char> {
    "Failed to resolve vehicle module instance: "@ + error
}

/// The failure reason of a module instance whose definition failed to apply.
pub open spec fn module_apply_failure(instance: Seq<char>, error: Seq<char>) -> Seq<char> {
    "Failed to apply vehicle module instance to "@ + instance + ": "@ + error
}

/// The step of a pending widget slot after resolving its asset, given the
/// resolve outcome (`Ok(ready)`, or the resolve error): waits while not
/// ready, applies once ready, and settles as failed -- still revealing its
/// scene -- when resolving failed.
pub fn bsn_widget_after_resolve(asset_path: &str, resolve_result: &Result<bool, String>) -> (r:
    PendingSlotStep)
    ensures
        match resolve_result {
            Ok(false) => r is Wait,
            Ok(true) => r is Apply,
            Err(error) => (r matches PendingSlotStep::Settle(s) && s.clears_scene_loading && (
            s.failure matches Some(reason) && reason@ == widget_resolve_failure(
                asset_path@,
                error@,
            ))),
        },
{
    match resolve_result {
        Ok(ready) => {
            if *ready {
                PendingSlotStep::Apply
            } else {
                PendingSlotStep::Wait
            }
        },
        Err(error) => {
            let opened = concatenated("Failed to resolve Last Beacon BSN widget `", asset_path);
            let labelled = concatenated(opened.as_str(), "`: ");
            let reason = concatenated(labelled.as_str(), error.as_str());
            PendingSlotStep::Settle(
                SlotSettlement { clears_scene_loading: true, failure: Some(reason) },
            )
        },
    }
}

/// How a widget slot settles after applying its asset: applied, or failed
/// with the reason; either way its scene stops loading.
pub fn bsn_widget_after_apply(
    asset_path: &str,
    slot_label: &str,
    apply_result: &Result<(), String>,
) -> (r: SlotSettlement)
    ensures
        r.clears_scene_loading,
        match apply_result {
            Ok(()) => r.failure is None,
            Err(error) => r.failure matches Some(reason) && reason@ == widget_apply_failure(
                asset_path@,
                slot_label@,
                error@,
            ),
        },
{
    match apply_result {
        Ok(()) => SlotSettlement { clears_scene_loading: true, failure: None },
        Err(error) => {
            let opened = concatenated("Failed to apply Last Beacon BSN widget `", asset_path);
            let to_slot = concatenated(opened.as_str(), "` to ");
            let slot = concatenated(to_slot.as_str(), slot_label);
            let labelled = concatenated(slot.as_str(), ": ");
            let reason = concatenated(labelled.as_str(), error.as_str());
            SlotSettlement { clears_scene_loading: true, failure: Some(reason) }
        },
    }
}

/// The step of a pending module instance after resolving its definition.
pub fn vehicle_module_instance_after_resolve(resolve_result: &Result<bool, String>) -> (r:
    PendingSlotStep)
    ensures
        match resolve_result {
            Ok(false) => r is Wait,
            Ok(true) => r is Apply,
            Err(error) => (r matches PendingSlotStep::Settle(s) && !s.clears_scene_loading && (
            s.failure matches Some(reason) && reason@ == module_resolve_failure(error@))),
        },
{
    match resolve_result {
        Ok(ready) => {
            if *ready {
                PendingSlotStep::Apply
            } else {
                PendingSlotStep::Wait
            }
        },
        Err(error) => {
            let reason = concatenated("Failed to resolve vehicle module instance: ", error.as_str());
            PendingSlotStep::Settle(
                SlotSettlement { clears_scene_loading: false, failure: Some(reason) },
            )
        },
    }
}

/// How a module instance settles after applying its definition.
pub fn vehicle_module_instance_after_apply(instance_label: &str, apply_result: &Result<(), String>) -> (r:
    SlotSettlement)
    ensures
        !r.clears_scene_loading,
        match apply_result {
            Ok(()) => r.failure is None,
            Err(error) => r.failure matches Some(reason) && reason@ == module_apply_failure(
                instance_label@,
                error@,
            ),
        },
{
    match apply_result {
        Ok(()) => SlotSettlement { clears_scene_loading: false, failure: None },
        Err(error) => {
            let opened = concatenated("Failed to apply vehicle module instance to ", instance_label);
            let labelled = concatenated(opened.as_str(), ": ");
            let reason = concatenated(labelled.as_str(), error.as_str());
            SlotSettlement { clears_scene_loading: false, failure: Some(reason) }
        },
    }
}

/// Asset path of the regular UI font.
pub const LAST_BEACON_UI_FONT_PATH: &'static str = "fonts/NotoSans-Regular.ttf";
/// Asset path of the symbol font used by symbol icons.
pub const LAST_BEACON_SYMBOL_FONT_PATH: &'static str = "fonts/NotoSansSymbols2-Regular.ttf";

/// Which shared font a text uses.
#[derive(Clone, Copy, Debug, PartialEq, Eq, Structural)]
pub enum UiFont {
    Regular,
    Symbol,
}

/// How a newly spawned text is fonted: symbol icons take the symbol font and
/// all other text the regular one; a text whose font has not loaded yet keeps
/// its scene hidden until it has.
pub struct TextFontChoice {
    pub font: UiFont,
    pub hides_owning_scene: bool,
}

/// The font choice for a newly spawned text.
pub fn apply_last_beacon_ui_font(is_symbol_icon: bool, regular_loaded: bool, symbol_loaded: bool) -> (r:
    TextFontChoice)
    ensures
        r.font == (if is_symbol_icon {
            UiFont::Symbol
        } else {
            UiFont::Regular
        }),
        r.hides_owning_scene == !(if is_symbol_icon {
            symbol_loaded
        } else {
            regular_loaded
        }),
{
    if is_symbol_icon {
        TextFontChoice { font: UiFont::Symbol, hides_owning_scene: !symbol_loaded }
    } else {
        TextFontChoice { font: UiFont::Regular, hides_owning_scene: !regular_loaded }
    }
}

/// Whether text hidden while its font loaded can be revealed: only once both
/// shared fonts have loaded.
pub fn reveal_last_beacon_text_once_fonts_load(regular_loaded: bool, symbol_loaded: bool) -> (r:
    bool)
    ensures
        r == (regular_loaded && symbol_loaded),
{
    regular_loaded && symbol_loaded
}

} // verus!
