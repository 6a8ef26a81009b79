use last_beacon::ui::descendants::{first_matching_descendant, EntityTree};
use last_beacon::input::ButtonInteraction;
use last_beacon::loading::{
    apply_last_beacon_ui_font, bsn_widget_after_apply, bsn_widget_after_resolve,
    queue_last_beacon_bsn_widgets, queue_last_beacon_vehicle_module_instances,
    reveal_last_beacon_text_once_fonts_load, vehicle_module_instance_after_apply,
    vehicle_module_instance_after_resolve, LastBeaconBsnWidget, LastBeaconVehicleModuleInstance,
    PendingSlotStep, UiFont,
};
use last_beacon::ui::keyboard::{
    activate_last_beacon_ui_focused_widget_on_keyboard_input, apply_last_beacon_ui_focus_outline,
    drag_last_beacon_ui_text_box_scrollbars, keyboard_input_should_reveal_text_caret,
    request_last_beacon_ui_text_box_caret_scroll_for_keyboard_input, text_box_cursor_is_over,
    FocusedWidget, KeyboardPress, LastBeaconUiTextBoxScrollAxis, LastBeaconUiTextBoxScrollDrag,
    LogicalKey, ScrollableTextInput,
};
use last_beacon::ui::layout::{
    apply_last_beacon_ui_grid_item_span, apply_last_beacon_ui_uniform_grid, LastBeaconUiGridItem,
    LastBeaconUiUniformGrid,
};
use last_beacon::ui::state::{
    apply_dropdown_toggle_activation, apply_value_button_activation, dropdown_is_open,
    initialize_last_beacon_ui_value_text, insert_input_value_if_changed,
    number_input_allows_character, refresh_last_beacon_ui_dropdown_icons,
    refresh_last_beacon_ui_dropdown_panels, refresh_last_beacon_ui_radio_icons,
    refresh_last_beacon_ui_tab_panels, refresh_last_beacon_ui_value_text, tab_is_selected,
    toggle_last_beacon_ui_dropdowns, update_last_beacon_ui_tab_selection,
    DropdownToggleInteraction, LastBeaconUiDropdownIcon, LastBeaconUiDropdownPanel,
    LastBeaconUiDropdownStates, LastBeaconUiDropdownToggle, LastBeaconUiInputValues,
    LastBeaconUiRadioIcon, LastBeaconUiTab, LastBeaconUiTabPanel, LastBeaconUiTabSelections,
    LastBeaconUiValueButton, LastBeaconUiValueText, PanelDisplay, TabInteraction,
};
use last_beacon::ui::style::{
    button_variant, enforce_last_beacon_button_styles, fixed_button_background,
    reusable_button_style, reusable_tab_style, ButtonInteractionState, ButtonVariant,
    FixedBackgroundButton, LastBeaconUiButton, ThemeColor, UiColorToken,
};
use last_beacon::ui::text_input::{
    heal_last_beacon_ui_value_text_stuck_glyphs, initialize_last_beacon_ui_text_inputs,
    LastBeaconUiTextInput, TextInputLayout, TextNodeWidth,
};

fn tab(group: &str, tab: &str, selected: bool) -> LastBeaconUiTab {
    LastBeaconUiTab { group: group.to_string(), tab: tab.to_string(), selected }
}

fn solid(token: UiColorToken) -> ThemeColor {
    ThemeColor { token, alpha_percent: None }
}

fn faded(token: UiColorToken, percent: u8) -> ThemeColor {
    ThemeColor { token, alpha_percent: Some(percent) }
}

#[test]
fn widget_asset_path_is_authored_explicitly() {
    let widget = LastBeaconBsnWidget { asset_path: "ui/widgets/main_menu/title.bsn".to_string() };
    assert_eq!(widget.asset_path, "ui/widgets/main_menu/title.bsn");
}

#[test]
fn queueing_a_scene_owned_widget_slot_marks_the_scene_as_still_loading() {
    let widget = LastBeaconBsnWidget { asset_path: "ui/widgets/common/divider.bsn".to_string() };
    let queued = queue_last_beacon_bsn_widgets(&widget, true).expect("slot should queue");
    assert!(queued.hides_owning_scene);
    assert_eq!(queued.asset_path, "ui/widgets/common/divider.bsn");
}

#[test]
fn queueing_an_unowned_widget_slot_does_not_mark_anything_loading() {
    let widget = LastBeaconBsnWidget { asset_path: "ui/widgets/common/divider.bsn".to_string() };
    let queued = queue_last_beacon_bsn_widgets(&widget, false).expect("slot should queue");
    assert!(!queued.hides_owning_scene);
    assert!(queue_last_beacon_bsn_widgets(&LastBeaconBsnWidget::default(), true).is_none());
}

#[test]
fn applying_a_widget_clears_the_scene_loading_marker() {
    assert!(matches!(bsn_widget_after_resolve("w.bsn", &Ok(false)), PendingSlotStep::Wait));
    assert!(matches!(bsn_widget_after_resolve("w.bsn", &Ok(true)), PendingSlotStep::Apply));
    let settled = bsn_widget_after_apply("w.bsn", "4v1", &Ok(()));
    assert!(settled.clears_scene_loading);
    assert!(settled.failure.is_none());
}

#[test]
fn a_failed_widget_load_still_clears_the_scene_loading_marker() {
    match bsn_widget_after_resolve("ui/w.bsn", &Err("missing type Foo".to_string())) {
        PendingSlotStep::Settle(settled) => {
            assert!(settled.clears_scene_loading);
            assert_eq!(
                settled.failure.as_deref(),
                Some("Failed to resolve Last Beacon BSN widget `ui/w.bsn`: missing type Foo")
            );
        }
        _ => panic!("a resolve error should settle the slot"),
    }
    let settled = bsn_widget_after_apply("ui/w.bsn", "12v3", &Err("no such field".to_string()));
    assert!(settled.clears_scene_loading);
    assert_eq!(
        settled.failure.as_deref(),
        Some("Failed to apply Last Beacon BSN widget `ui/w.bsn` to 12v3: no such field")
    );
}

#[test]
fn queuing_an_instance_with_an_empty_asset_path_does_not_panic() {
    assert!(queue_last_beacon_vehicle_module_instances(&LastBeaconVehicleModuleInstance {
        asset_path: String::new(),
    })
    .is_none());
    let queued = queue_last_beacon_vehicle_module_instances(&LastBeaconVehicleModuleInstance {
        asset_path: "fake_module.bsn".to_string(),
    })
    .unwrap();
    assert_eq!(queued.asset_path, "fake_module.bsn");
    assert!(!queued.hides_owning_scene);
}

#[test]
fn module_instances_settle_with_their_failure_reasons() {
    match vehicle_module_instance_after_resolve(&Err("bad".to_string())) {
        PendingSlotStep::Settle(settled) => {
            assert!(!settled.clears_scene_loading);
            assert_eq!(
                settled.failure.as_deref(),
                Some("Failed to resolve vehicle module instance: bad")
            );
        }
        _ => panic!("a resolve error should settle the instance"),
    }
    let settled = vehicle_module_instance_after_apply("5v0", &Err("oops".to_string()));
    assert_eq!(
        settled.failure.as_deref(),
        Some("Failed to apply vehicle module instance to 5v0: oops")
    );
    assert!(vehicle_module_instance_after_apply("5v0", &Ok(())).failure.is_none());
}

#[test]
fn text_with_an_unloaded_font_is_marked_loading() {
    let choice = apply_last_beacon_ui_font(false, false, true);
    assert_eq!(choice.font, UiFont::Regular);
    assert!(choice.hides_owning_scene);
    let symbol = apply_last_beacon_ui_font(true, false, true);
    assert_eq!(symbol.font, UiFont::Symbol);
    assert!(!symbol.hides_owning_scene);
}

#[test]
fn text_finishing_its_font_load_clears_the_loading_marker() {
    assert!(!reveal_last_beacon_text_once_fonts_load(true, false));
    assert!(reveal_last_beacon_text_once_fonts_load(true, true));
}

#[test]
fn reveal_text_once_fonts_load_marks_text_font_changed() {
    assert!(reveal_last_beacon_text_once_fonts_load(true, true));
    assert!(!reveal_last_beacon_text_once_fonts_load(false, true));
    assert!(!reveal_last_beacon_text_once_fonts_load(true, false));
    assert!(!reveal_last_beacon_text_once_fonts_load(false, false));
}

#[test]
fn healing_repeatedly_never_duplicates_the_value() {
    let value = String::from("42");
    for _ in 0..20 {
        assert!(heal_last_beacon_ui_value_text_stuck_glyphs(false, &value));
        assert_eq!(value, "42");
    }
    assert!(!heal_last_beacon_ui_value_text_stuck_glyphs(true, &value));
    assert_eq!(value, "42");
}

#[test]
fn reusable_button_and_tab_styles_resolve_to_the_shipped_tokens() {
    let primary_pressed = reusable_button_style(" Primary ", ButtonInteraction::Pressed);
    assert_eq!(primary_pressed.background_color, solid(UiColorToken::AccentPressed));
    assert_eq!(primary_pressed.text_color, solid(UiColorToken::TextOnAccent));
    let tertiary_pressed = reusable_button_style("TERTIARY", ButtonInteraction::Pressed);
    assert_eq!(tertiary_pressed.background_color, faded(UiColorToken::Accent, 18));
    let tertiary_hovered = reusable_button_style("tertiary", ButtonInteraction::Hovered);
    assert_eq!(tertiary_hovered.background_color, faded(UiColorToken::Accent, 10));
    assert_eq!(tertiary_hovered.text_color, solid(UiColorToken::AccentHover));
    let secondary = reusable_button_style("anything", ButtonInteraction::Idle);
    assert_eq!(secondary.background_color, solid(UiColorToken::Surface));
    assert_eq!(secondary.border_color, solid(UiColorToken::Border));
    assert_eq!(button_variant("\tprimary\n"), ButtonVariant::Primary);
    assert_eq!(button_variant("secondary"), ButtonVariant::Secondary);
    assert_eq!(LastBeaconUiButton::default().variant, "secondary");

    assert_eq!(
        reusable_tab_style(true, ButtonInteraction::Pressed).background_color,
        faded(UiColorToken::Accent, 22)
    );
    assert_eq!(
        reusable_tab_style(true, ButtonInteraction::Idle).background_color,
        solid(UiColorToken::AccentSoft)
    );
    assert_eq!(
        reusable_tab_style(false, ButtonInteraction::Pressed).background_color,
        faded(UiColorToken::Accent, 16)
    );
    assert_eq!(
        reusable_tab_style(false, ButtonInteraction::Hovered).background_color,
        faded(UiColorToken::Accent, 8)
    );
    assert_eq!(
        reusable_tab_style(false, ButtonInteraction::Idle).text_color,
        solid(UiColorToken::TextMuted)
    );
    assert_eq!(
        fixed_button_background(FixedBackgroundButton::BeaconPrimary),
        solid(UiColorToken::SecondaryAccent)
    );
}

#[test]
fn button_style_updates_when_interaction_changes() {
    let resting = reusable_button_style("primary", ButtonInteraction::Idle);
    let hovered = reusable_button_style("primary", ButtonInteraction::Hovered);
    assert_ne!(hovered.background_color, resting.background_color);
}

#[test]
fn both_tabs_in_a_group_restyle_when_only_the_shared_selection_changes() {
    let tabs = vec![
        TabInteraction { tab: tab("group", "a", true), interaction: ButtonInteraction::Idle },
        TabInteraction { tab: tab("group", "b", false), interaction: ButtonInteraction::Idle },
    ];
    let mut selections = LastBeaconUiTabSelections::default();
    let before = enforce_last_beacon_button_styles(&selections, &Vec::new(), &tabs);
    selections.select("group", "b");
    let after = enforce_last_beacon_button_styles(&selections, &Vec::new(), &tabs);
    assert_ne!(after.tab_styles[0].background_color, before.tab_styles[0].background_color);
    assert_ne!(after.tab_styles[1].background_color, before.tab_styles[1].background_color);
    let buttons = vec![ButtonInteractionState {
        button: LastBeaconUiButton { variant: "primary".to_string() },
        interaction: ButtonInteraction::Idle,
    }];
    let styled = enforce_last_beacon_button_styles(&selections, &buttons, &Vec::new());
    assert_eq!(styled.button_styles[0].background_color, solid(UiColorToken::Accent));
}

#[test]
fn focus_outline_color_follows_input_focus_and_visibility() {
    assert_eq!(apply_last_beacon_ui_focus_outline(&vec![1, 2], Some(2), true), vec![false, true]);
    assert_eq!(apply_last_beacon_ui_focus_outline(&vec![1, 2], Some(2), false), vec![false, false]);
    assert_eq!(apply_last_beacon_ui_focus_outline(&vec![1, 2], None, true), vec![false, false]);
}

fn enter() -> Vec<KeyboardPress> {
    vec![KeyboardPress { key: LogicalKey::Enter, pressed: true }]
}

#[test]
fn keyboard_enter_applies_a_focused_set_value_button() {
    let mut values = LastBeaconUiInputValues::default();
    let mut dropdowns = LastBeaconUiDropdownStates::default();
    let mut tabs = LastBeaconUiTabSelections::default();
    dropdowns.set("difficulty", true);
    let focused = FocusedWidget {
        value_button: Some(LastBeaconUiValueButton {
            target: "difficulty".to_string(),
            set_value: "Hard".to_string(),
        }),
        dropdown_toggle: None,
        tab: None,
    };
    let numeric = activate_last_beacon_ui_focused_widget_on_keyboard_input(
        &enter(),
        Some(&focused),
        &mut values,
        &mut dropdowns,
        &mut tabs,
    );
    assert!(!numeric);
    assert_eq!(values.value("difficulty").map(String::as_str), Some("Hard"));
    assert!(!dropdown_is_open(&dropdowns, "difficulty"));
}

#[test]
fn keyboard_space_activates_focused_dropdown_toggle() {
    let mut values = LastBeaconUiInputValues::default();
    let mut dropdowns = LastBeaconUiDropdownStates::default();
    let mut tabs = LastBeaconUiTabSelections::default();
    let focused = FocusedWidget {
        value_button: None,
        dropdown_toggle: Some(LastBeaconUiDropdownToggle { target: "quality".to_string() }),
        tab: None,
    };
    let released_space = vec![KeyboardPress { key: LogicalKey::Space, pressed: false }];
    activate_last_beacon_ui_focused_widget_on_keyboard_input(
        &released_space,
        Some(&focused),
        &mut values,
        &mut dropdowns,
        &mut tabs,
    );
    assert!(!dropdown_is_open(&dropdowns, "quality"));
    let space = vec![
        KeyboardPress { key: LogicalKey::Character("a".to_string()), pressed: true },
        KeyboardPress { key: LogicalKey::Space, pressed: true },
    ];
    activate_last_beacon_ui_focused_widget_on_keyboard_input(
        &space,
        Some(&focused),
        &mut values,
        &mut dropdowns,
        &mut tabs,
    );
    assert!(dropdown_is_open(&dropdowns, "quality"));
}

#[test]
fn keyboard_enter_activates_focused_tab() {
    let mut values = LastBeaconUiInputValues::default();
    let mut dropdowns = LastBeaconUiDropdownStates::default();
    let mut tabs = LastBeaconUiTabSelections::default();
    let focused = FocusedWidget {
        value_button: None,
        dropdown_toggle: None,
        tab: Some(tab("settings", "audio", false)),
    };
    activate_last_beacon_ui_focused_widget_on_keyboard_input(
        &enter(),
        None,
        &mut values,
        &mut dropdowns,
        &mut tabs,
    );
    assert!(tabs.selected_tab("settings").is_none());
    activate_last_beacon_ui_focused_widget_on_keyboard_input(
        &enter(),
        Some(&focused),
        &mut values,
        &mut dropdowns,
        &mut tabs,
    );
    assert_eq!(tabs.selected_tab("settings").map(String::as_str), Some("audio"));
}

#[test]
fn a_value_button_without_a_set_value_asks_for_a_numeric_step() {
    let mut values = LastBeaconUiInputValues::default();
    let mut dropdowns = LastBeaconUiDropdownStates::default();
    let stepper = LastBeaconUiValueButton { target: "volume".to_string(), set_value: String::new() };
    assert!(apply_value_button_activation(&stepper, &mut values, &mut dropdowns));
    assert!(!values.contains("volume"));
    let untargeted = LastBeaconUiValueButton { target: String::new(), set_value: "1".to_string() };
    assert!(!apply_value_button_activation(&untargeted, &mut values, &mut dropdowns));
    assert!(!values.contains(""));
}

#[test]
fn a_stored_value_is_only_rewritten_when_it_changes() {
    let mut values = LastBeaconUiInputValues::default();
    assert!(insert_input_value_if_changed(&mut values, "volume", "50"));
    assert!(!insert_input_value_if_changed(&mut values, "volume", "50"));
    assert!(insert_input_value_if_changed(&mut values, "volume", "55"));
    assert_eq!(values.value("volume").map(String::as_str), Some("55"));
}

#[test]
fn tab_presses_select_and_icons_panels_follow() {
    let mut selections = LastBeaconUiTabSelections::default();
    assert!(tab_is_selected(&selections, "g", "a", true));
    assert!(!tab_is_selected(&selections, "g", "b", false));
    update_last_beacon_ui_tab_selection(
        &mut selections,
        &vec![
            TabInteraction { tab: tab("g", "b", false), interaction: ButtonInteraction::Hovered },
            TabInteraction { tab: tab("g", "b", false), interaction: ButtonInteraction::Pressed },
        ],
    );
    assert!(!tab_is_selected(&selections, "g", "a", true));
    assert!(tab_is_selected(&selections, "g", "b", false));
    let icons = vec![
        LastBeaconUiRadioIcon { group: "g".to_string(), tab: "a".to_string(), selected: true },
        LastBeaconUiRadioIcon { group: "g".to_string(), tab: "b".to_string(), selected: false },
        LastBeaconUiRadioIcon::default(),
    ];
    assert_eq!(refresh_last_beacon_ui_radio_icons(&selections, &icons), vec!["○", "●", "○"]);
    let panels = vec![
        LastBeaconUiTabPanel { group: "g".to_string(), tab: "b".to_string(), selected: false },
        LastBeaconUiTabPanel { group: "h".to_string(), tab: "x".to_string(), selected: true },
        LastBeaconUiTabPanel::default(),
    ];
    assert_eq!(
        refresh_last_beacon_ui_tab_panels(&selections, &panels),
        vec![PanelDisplay::Flex, PanelDisplay::Flex, PanelDisplay::Hidden]
    );
}

#[test]
fn dropdowns_toggle_and_their_icons_and_panels_follow() {
    let mut states = LastBeaconUiDropdownStates::default();
    let toggle = LastBeaconUiDropdownToggle { target: "quality".to_string() };
    let icons = vec![LastBeaconUiDropdownIcon { target: "quality".to_string() }];
    let panels = vec![LastBeaconUiDropdownPanel { target: "quality".to_string() }];
    assert_eq!(refresh_last_beacon_ui_dropdown_icons(&states, &icons), vec!["▾"]);
    apply_dropdown_toggle_activation(&toggle, &mut states);
    assert_eq!(refresh_last_beacon_ui_dropdown_icons(&states, &icons), vec!["▴"]);
    assert_eq!(refresh_last_beacon_ui_dropdown_panels(&states, &panels), vec![PanelDisplay::Flex]);
    toggle_last_beacon_ui_dropdowns(
        &mut states,
        &vec![DropdownToggleInteraction { toggle: toggle.clone(), interaction: ButtonInteraction::Pressed }],
    );
    assert!(!dropdown_is_open(&states, "quality"));
    assert_eq!(
        refresh_last_beacon_ui_dropdown_panels(&states, &panels),
        vec![PanelDisplay::Hidden]
    );
    apply_dropdown_toggle_activation(&LastBeaconUiDropdownToggle::default(), &mut states);
    assert_eq!(states.state(""), None);
}

#[test]
fn value_text_spawned_after_the_stored_value_already_exists_still_shows_it() {
    let mut values = LastBeaconUiInputValues::default();
    values.set("volume", "75");
    let value_text = LastBeaconUiValueText {
        target: "volume".to_string(),
        prefix: "Volume: ".to_string(),
        suffix: "%".to_string(),
    };
    initialize_last_beacon_ui_value_text(&mut values, &value_text, "Volume: 10%");
    assert_eq!(values.value("volume").map(String::as_str), Some("75"));
    let missing = LastBeaconUiValueText { target: "other".to_string(), ..value_text.clone() };
    assert_eq!(
        refresh_last_beacon_ui_value_text(&values, &vec![value_text, missing]),
        vec![Some("Volume: 75%".to_string()), None]
    );
}

#[test]
fn value_text_seeds_its_value_from_the_authored_label() {
    let mut values = LastBeaconUiInputValues::default();
    let value_text = LastBeaconUiValueText {
        target: "volume".to_string(),
        prefix: "Volume: ".to_string(),
        suffix: "%".to_string(),
    };
    initialize_last_beacon_ui_value_text(&mut values, &value_text, "Volume: 40%");
    assert_eq!(values.value("volume").map(String::as_str), Some("40"));
    let unlabelled = LastBeaconUiValueText { target: "name".to_string(), ..value_text.clone() };
    initialize_last_beacon_ui_value_text(&mut values, &unlabelled, "Pilot");
    assert_eq!(values.value("name").map(String::as_str), Some("Pilot"));
    let untargeted = LastBeaconUiValueText::default();
    initialize_last_beacon_ui_value_text(&mut values, &untargeted, "ignored");
    assert!(!values.contains(""));
}

#[test]
fn number_fields_accept_only_number_characters() {
    for c in ['0', '5', '9', '.', '-'] {
        assert!(number_input_allows_character(c));
    }
    for c in ['a', '+', ' ', 'e', '٣'] {
        assert!(!number_input_allows_character(c));
    }
}

#[test]
fn editing_and_navigation_keys_reveal_the_caret() {
    assert!(keyboard_input_should_reveal_text_caret(&LogicalKey::Character("x".to_string())));
    assert!(!keyboard_input_should_reveal_text_caret(&LogicalKey::Character(String::new())));
    assert!(keyboard_input_should_reveal_text_caret(&LogicalKey::PageDown));
    assert!(!keyboard_input_should_reveal_text_caret(&LogicalKey::Other));
    let presses = vec![
        KeyboardPress { key: LogicalKey::Other, pressed: true },
        KeyboardPress { key: LogicalKey::Backspace, pressed: false },
    ];
    assert_eq!(request_last_beacon_ui_text_box_caret_scroll_for_keyboard_input(Some(3), &presses), None);
    let presses = vec![KeyboardPress { key: LogicalKey::Home, pressed: true }];
    assert_eq!(
        request_last_beacon_ui_text_box_caret_scroll_for_keyboard_input(Some(3), &presses),
        Some(3)
    );
    assert_eq!(request_last_beacon_ui_text_box_caret_scroll_for_keyboard_input(None, &presses), None);
}

#[test]
fn scrollbar_drags_follow_the_pressed_track_until_release() {
    let mut drag = LastBeaconUiTextBoxScrollDrag::default();
    let inputs = vec![
        ScrollableTextInput { entity: 10, multiline: false, vertical_track_pressed: true, horizontal_track_pressed: false },
        ScrollableTextInput { entity: 11, multiline: true, vertical_track_pressed: true, horizontal_track_pressed: true },
        ScrollableTextInput { entity: 12, multiline: true, vertical_track_pressed: false, horizontal_track_pressed: false },
    ];
    let dragged = drag_last_beacon_ui_text_box_scrollbars(&mut drag, true, &inputs);
    assert_eq!(dragged, vec![(1, LastBeaconUiTextBoxScrollAxis::Horizontal)]);
    assert_eq!(drag.active_text_box, Some(11));
    let idle = vec![ScrollableTextInput { entity: 11, multiline: true, vertical_track_pressed: false, horizontal_track_pressed: false }];
    assert_eq!(
        drag_last_beacon_ui_text_box_scrollbars(&mut drag, true, &idle),
        vec![(0, LastBeaconUiTextBoxScrollAxis::Horizontal)]
    );
    assert!(drag_last_beacon_ui_text_box_scrollbars(&mut drag, false, &idle).is_empty());
    assert_eq!(drag.active_text_box, None);
    assert!(text_box_cursor_is_over(None, Some(ButtonInteraction::Hovered)));
    assert!(!text_box_cursor_is_over(Some(false), Some(ButtonInteraction::Pressed)));
    assert!(!text_box_cursor_is_over(None, None));
}

#[test]
fn uniform_grid_configures_the_requested_column_count() {
    assert_eq!(apply_last_beacon_ui_uniform_grid(&LastBeaconUiUniformGrid { column_count: 3 }), 3);
    assert_eq!(LastBeaconUiUniformGrid::default().column_count, 1);
}

#[test]
fn uniform_grid_column_count_of_zero_still_produces_a_single_column() {
    assert_eq!(apply_last_beacon_ui_uniform_grid(&LastBeaconUiUniformGrid { column_count: 0 }), 1);
}

#[test]
fn grid_item_span_translates_into_native_grid_placement() {
    assert_eq!(
        apply_last_beacon_ui_grid_item_span(&LastBeaconUiGridItem { column_span: 2, row_span: 3 }),
        (2, 3)
    );
}

#[test]
fn grid_item_span_of_zero_does_not_panic_and_yields_span_one() {
    assert_eq!(
        apply_last_beacon_ui_grid_item_span(&LastBeaconUiGridItem { column_span: 0, row_span: 0 }),
        (1, 1)
    );
    assert_eq!(LastBeaconUiGridItem::default(), LastBeaconUiGridItem { column_span: 1, row_span: 1 });
}

#[test]
fn text_inputs_are_configured_by_kind() {
    let multiline = LastBeaconUiTextInput { value: "a\nb".to_string(), multiline: true };
    let setup = initialize_last_beacon_ui_text_inputs(&multiline, false, false);
    assert!(setup.allow_newlines && setup.tracks_cursor_position && setup.caret_at_start);
    assert_eq!(setup.layout, TextInputLayout::NoWrap);
    assert_eq!(setup.node.width, TextNodeWidth::FullParent);
    assert!(setup.node.insert_new && setup.node.full_height);

    let single = LastBeaconUiTextInput { value: "42".to_string(), multiline: false };
    let number = initialize_last_beacon_ui_text_inputs(&single, true, true);
    assert!(number.number_characters_only && number.single_line_viewport);
    assert_eq!(number.layout, TextInputLayout::Centered);
    assert_eq!(number.node.width, TextNodeWidth::NumberValue);
    assert!(!number.node.insert_new && number.node.centered);

    let plain = initialize_last_beacon_ui_text_inputs(&single, false, true);
    assert_eq!(plain.layout, TextInputLayout::Default);
    assert_eq!(plain.node.width, TextNodeWidth::Keep);
}

#[test]
fn stuck_zero_glyph_value_text_self_heals_within_a_few_frames() {
    assert!(heal_last_beacon_ui_value_text_stuck_glyphs(false, "42"));
    assert!(!heal_last_beacon_ui_value_text_stuck_glyphs(true, "42"));
    assert!(!heal_last_beacon_ui_value_text_stuck_glyphs(false, ""));
}

#[test]
fn button_style_corrects_a_stray_overwrite_even_when_interaction_did_not_change() {
    // The style is a function of the variant and interaction alone, so every
    // frame restores the same colors whatever was written in between.
    let selections = LastBeaconUiTabSelections::default();
    let buttons = vec![ButtonInteractionState {
        button: LastBeaconUiButton { variant: "secondary".to_string() },
        interaction: ButtonInteraction::Idle,
    }];
    let first = enforce_last_beacon_button_styles(&selections, &buttons, &Vec::new());
    let second = enforce_last_beacon_button_styles(&selections, &buttons, &Vec::new());
    assert_eq!(first.button_styles, second.button_styles);
    assert_eq!(first.button_styles[0].background_color, solid(UiColorToken::Surface));
}

#[test]
fn the_first_matching_descendant_is_found_depth_first() {
    // 0 -> [1, 2], 1 -> [3], 2 -> [4]; entity 3 and 4 match.
    let tree = EntityTree { children: vec![vec![1, 2], vec![3], vec![4], vec![], vec![]] };
    let matches = vec![false, false, false, true, true];
    assert_eq!(first_matching_descendant(&tree, &matches, &vec![1, 2], 5), Some(3));
    assert_eq!(first_matching_descendant(&tree, &matches, &vec![2, 1], 5), Some(4));
    assert_eq!(first_matching_descendant(&tree, &matches, &vec![1, 2], 0), None);
    let root_matches = vec![false, true, false, true, true];
    assert_eq!(first_matching_descendant(&tree, &root_matches, &vec![1, 2], 5), Some(1));
    assert_eq!(first_matching_descendant(&tree, &matches, &vec![], 5), None);
}
