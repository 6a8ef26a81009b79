//! Keyboard focus and text-box interaction decisions: which keys reveal the
//! text caret, Enter/Space activation of the focused widget, the focus
//! outline, and which text box a scrollbar drag moves.
use vstd::prelude::*;

use crate::ui::state::{
    after_toggle, apply_dropdown_toggle_activation, apply_tab_selection_activation,
    apply_value_button_activation, LastBeaconUiDropdownStates, LastBeaconUiDropdownToggle,
    LastBeaconUiInputValues, LastBeaconUiTab, LastBeaconUiTabSelections, LastBeaconUiValueButton,
};

verus! {

/// A key by its logical meaning.
#[derive(Clone, Debug, PartialEq, Eq)]
pub enum LogicalKey {
    /// A key that types text.
    Character(String),
    Enter,
    Space,
    Backspace,
    Delete,
    ArrowLeft,
    ArrowRight,
    ArrowUp,
    ArrowDown,
    Home,
    End,
    PageUp,
    PageDown,
    /// Any other key.
    Other,
}

/// Whether a key edits or navigates text, so that the caret should scroll
/// back into view: a key typing non-empty text, Enter, Space, Backspace,
/// Delete, the arrows, Home, End, Page Up and Page Down.
pub open spec fn reveals_caret(key: LogicalKey) -> bool {
    match key {
        LogicalKey::Character(text) => text@.len() > 0,
        LogicalKey::Other => false,
        _ => true,
    }
}

/// Whether a key reveals the text caret.
pub fn keyboard_input_should_reveal_text_caret(key: &LogicalKey) -> (r: bool)
    ensures
        r == reveals_caret(*key),
{
    match key {
        LogicalKey::Character(text) => !text.as_str().is_empty(),
        LogicalKey::Enter | LogicalKey::Space | LogicalKey::Backspace | LogicalKey::Delete
        | LogicalKey::ArrowLeft | LogicalKey::ArrowRight | LogicalKey::ArrowUp
        | LogicalKey::ArrowDown | LogicalKey::Home | LogicalKey::End | LogicalKey::PageUp
        | LogicalKey::PageDown => true,
        LogicalKey::Other => false,
    }
}

/// One keyboard input: a key and whether it went down (rather than up).
pub struct KeyboardPress {
    pub key: LogicalKey,
    pub pressed: bool,
}

/// Whether any key going down among `presses` reveals the caret.
pub open spec fn any_caret_reveal(presses: Seq<KeyboardPress>) -> bool {
    exists|i: int| 0 <= i < presses.len() && #[trigger] presses[i].pressed && reveals_caret(
        presses[i].key,
    )
}

/// Whether any key going down among `presses` is Enter or Space.
pub open spec fn any_activation(presses: Seq<KeyboardPress>) -> bool {
    exists|i: int|
        0 <= i < presses.len() && #[trigger] presses[i].pressed && (presses[i].key
            == LogicalKey::Enter || presses[i].key == LogicalKey::Space)
}

/// The focused text entity whose caret should scroll back into view: the
/// focused entity when it is editable text and some key going down reveals
/// the caret; otherwise none.
pub fn request_last_beacon_ui_text_box_caret_scroll_for_keyboard_input(
    focused_editable_text: Option<u64>,
    presses: &Vec<KeyboardPress>,
) -> (r: Option<u64>)
    ensures
        r == (if focused_editable_text is Some && any_caret_reveal(presses@) {
            focused_editable_text
        } else {
            None
        }),
{
    if focused_editable_text.is_none() {
        return None;
    }
    let mut i: usize = 0;
    while i < presses.len()
        invariant
            i <= presses.len(),
            forall|k: int|
                0 <= k < i ==> !(#[trigger] presses@[k].pressed && reveals_caret(presses@[k].key)),
        decreases presses.len() - i,
    {
        if presses[i].pressed && keyboard_input_should_reveal_text_caret(&presses[i].key) {
            return focused_editable_text;
        }
        i = i + 1;
    }
    None
}

fn any_activation_key(presses: &Vec<KeyboardPress>) -> (r: bool)
    ensures
        r == any_activation(presses@),
{
    let mut i: usize = 0;
    while i < presses.len()
        invariant
            i <= presses.len(),
            forall|k: int|
                0 <= k < i ==> !(#[trigger] presses@[k].pressed && (presses@[k].key
                    == LogicalKey::Enter || presses@[k].key == LogicalKey::Space)),
        decreases presses.len() - i,
    {
        if presses[i].pressed {
            match presses[i].key {
                LogicalKey::Enter | LogicalKey::Space => {
                    return true;
                },
                _ => {},
            }
        }
        i = i + 1;
    }
    false
}

/// The widget behaviors the focused entity carries.
pub struct FocusedWidget {
    pub value_button: Option<LastBeaconUiValueButton>,
    pub dropdown_toggle: Option<LastBeaconUiDropdownToggle>,
    pub tab: Option<LastBeaconUiTab>,
}

/// Activates the focused widget when Enter or Space went down, with the same
/// effects a press would have: its value button, then its dropdown toggle,
/// then its tab. Returns whether the value button asks for a numeric step,
/// which the caller applies. Nothing happens without focus or activation key.
pub fn activate_last_beacon_ui_focused_widget_on_keyboard_input(
    presses: &Vec<KeyboardPress>,
    focused: Option<&FocusedWidget>,
    input_values: &mut LastBeaconUiInputValues,
    dropdown_states: &mut LastBeaconUiDropdownStates,
    tab_selections: &mut LastBeaconUiTabSelections,
) -> (needs_numeric_step: bool)
    ensures
        !(focused is Some && any_activation(presses@)) ==> {
            &&& !needs_numeric_step
            &&& final(input_values)@ == old(input_values)@
            &&& final(dropdown_states)@ == old(dropdown_states)@
            &&& final(tab_selections)@ == old(tab_selections)@
        },
        focused is Some && any_activation(presses@) ==> {
            let w = focused->0;
            let sets_value = w.value_button matches Some(b) && b.target@.len() > 0
                && b.set_value@.len() > 0;
            let after_button_dropdowns = if sets_value {
                old(dropdown_states)@.insert(w.value_button->0.target@, false)
            } else {
                old(dropdown_states)@
            };
            &&& needs_numeric_step == (w.value_button matches Some(b) && b.target@.len() > 0
                && b.set_value@.len() == 0)
            &&& final(input_values)@ == (if sets_value {
                old(input_values)@.insert(
                    w.value_button->0.target@,
                    w.value_button->0.set_value@,
                )
            } else {
                old(input_values)@
            })
            &&& final(dropdown_states)@ == (match w.dropdown_toggle {
                Some(toggle) => after_toggle(after_button_dropdowns, toggle.target@),
                None => after_button_dropdowns,
            })
            &&& final(tab_selections)@ == (match w.tab {
                Some(tab) => old(tab_selections)@.insert(tab.group@, tab.tab@),
                None => old(tab_selections)@,
            })
        },
{
    let widget = match focused {
        Some(widget) => widget,
        None => {
            return false;
        },
    };
    if !any_activation_key(presses) {
        return false;
    }
    let mut needs_numeric_step = false;
    match &widget.value_button {
        Some(value_button) => {
            needs_numeric_step = apply_value_button_activation(
                value_button,
                input_values,
                dropdown_states,
            );
        },
        None => {},
    }
    match &widget.dropdown_toggle {
        Some(toggle) => {
            apply_dropdown_toggle_activation(toggle, dropdown_states);
        },
        None => {},
    }
    match &widget.tab {
        Some(tab) => {
            apply_tab_selection_activation(tab, tab_selections);
        },
        None => {},
    }
    needs_numeric_step
}

/// Whether each focus indicator shows its outline: only the focused entity's,
/// and only while focus is visible.
pub fn apply_last_beacon_ui_focus_outline(
    indicators: &Vec<u64>,
    focused: Option<u64>,
    focus_visible: bool,
) -> (r: Vec<bool>)
    ensures
        r@.len() == indicators@.len(),
        forall|i: int|
            0 <= i < indicators@.len() ==> #[trigger] r@[i] == (focus_visible && focused == Some(
                indicators@[i],
            )),
{
    let mut out: Vec<bool> = Vec::new();
    let mut i: usize = 0;
    while i < indicators.len()
        invariant
            i <= indicators.len(),
            out@.len() == i,
            forall|k: int|
                0 <= k < i ==> #[trigger] out@[k] == (focus_visible && focused == Some(
                    indicators@[k],
                )),
        decreases indicators.len() - i,
    {
        let shown = match focused {
            Some(entity) => focus_visible && entity == indicators[i],
            None => false,
        };
        out.push(shown);
        i = i + 1;
    }
    out
}

/// Which scrollbar axis a drag moves.
#[derive(Clone, Copy, Debug, PartialEq, Eq, Structural)]
pub enum LastBeaconUiTextBoxScrollAxis {
    Vertical,
    Horizontal,
}

/// The multiline text box whose scrollbar is being dragged, and along which axis.
#[derive(Clone, Copy, Debug, PartialEq, Eq, Structural)]
pub struct LastBeaconUiTextBoxScrollDrag {
    pub active_text_box: Option<u64>,
    pub axis: LastBeaconUiTextBoxScrollAxis,
}

impl Default for LastBeaconUiTextBoxScrollDrag {
    fn default() -> (r: LastBeaconUiTextBoxScrollDrag)
        ensures
            r.active_text_box is None,
            r.axis == LastBeaconUiTextBoxScrollAxis::Vertical,
    {
        LastBeaconUiTextBoxScrollDrag {
            active_text_box: None,
            axis: LastBeaconUiTextBoxScrollAxis::Vertical,
        }
    }
}

/// A text input as the scrollbar drag sees it this frame.
#[derive(Clone, Copy, Debug, PartialEq, Eq, Structural)]
pub struct ScrollableTextInput {
    pub entity: u64,
    pub multiline: bool,
    /// It has a vertical scroll track and the pointer presses it.
    pub vertical_track_pressed: bool,
    /// It has a horizontal scroll track and the pointer presses it.
    pub horizontal_track_pressed: bool,
}

/// The drag state after considering one text input.
pub open spec fn drag_after_input(drag: LastBeaconUiTextBoxScrollDrag, input: ScrollableTextInput) -> LastBeaconUiTextBoxScrollDrag {
    if !input.multiline {
        drag
    } else if input.horizontal_track_pressed {
        LastBeaconUiTextBoxScrollDrag {
            active_text_box: Some(input.entity),
            axis: LastBeaconUiTextBoxScrollAxis::Horizontal,
        }
    } else if input.vertical_track_pressed {
        LastBeaconUiTextBoxScrollDrag {
            active_text_box: Some(input.entity),
            axis: LastBeaconUiTextBoxScrollAxis::Vertical,
        }
    } else {
        drag
    }
}

/// The drag state after the first `n` inputs, while the left button is held.
pub open spec fn drag_after_inputs(
    drag: LastBeaconUiTextBoxScrollDrag,
    inputs: Seq<ScrollableTextInput>,
) -> LastBeaconUiTextBoxScrollDrag
    decreases inputs.len(),
{
    if inputs.len() == 0 {
        drag
    } else {
        drag_after_input(drag_after_inputs(drag, inputs.drop_last()), inputs.last())
    }
}

/// The inputs a held drag scrolls, each with the axis: a multiline input
/// scrolls when, after considering it, it is the dragged one.
pub open spec fn dragged_inputs(
    drag: LastBeaconUiTextBoxScrollDrag,
    inputs: Seq<ScrollableTextInput>,
) -> Seq<(usize, LastBeaconUiTextBoxScrollAxis)>
    decreases inputs.len(),
{
    if inputs.len() == 0 {
        Seq::empty()
    } else {
        let before = dragged_inputs(drag, inputs.drop_last());
        let after = drag_after_inputs(drag, inputs);
        if inputs.last().multiline && after.active_text_box == Some(inputs.last().entity) {
            before.push(((inputs.len() - 1) as usize, after.axis))
        } else {
            before
        }
    }
}

/// Tracks scrollbar dragging on multiline text boxes. Releasing the left
/// button ends any drag. While it is held, pressing a text box's vertical
/// track (then its horizontal one, which wins) makes it the dragged box along
/// that axis; returned are the positions in `inputs` of the boxes to scroll
/// this frame, with the axis, for the caller to move by the cursor.
pub fn drag_last_beacon_ui_text_box_scrollbars(
    scroll_drag: &mut LastBeaconUiTextBoxScrollDrag,
    left_button_pressed: bool,
    inputs: &Vec<ScrollableTextInput>,
) -> (r: Vec<(usize, LastBeaconUiTextBoxScrollAxis)>)
    ensures
        !left_button_pressed ==> {
            &&& final(scroll_drag).active_text_box is None
            &&& final(scroll_drag).axis == old(scroll_drag).axis
            &&& r@.len() == 0
        },
        left_button_pressed ==> *final(scroll_drag) == drag_after_inputs(*old(scroll_drag), inputs@)
            && r@ == dragged_inputs(*old(scroll_drag), inputs@),
{
    let mut out: Vec<(usize, LastBeaconUiTextBoxScrollAxis)> = Vec::new();
    if !left_button_pressed {
        scroll_drag.active_text_box = None;
        return out;
    }
    let ghost start = *scroll_drag;
    let mut i: usize = 0;
    while i < inputs.len()
        invariant
            i <= inputs.len(),
            *scroll_drag == drag_after_inputs(start, inputs@.take(i as int)),
            out@ == dragged_inputs(start, inputs@.take(i as int)),
        decreases inputs.len() - i,
    {
        let input = inputs[i];
        assert(inputs@.take(i + 1).drop_last() =~= inputs@.take(i as int));
        if input.multiline {
            if input.vertical_track_pressed {
                scroll_drag.active_text_box = Some(input.entity);
                scroll_drag.axis = LastBeaconUiTextBoxScrollAxis::Vertical;
            }
            if input.horizontal_track_pressed {
                scroll_drag.active_text_box = Some(input.entity);
                scroll_drag.axis = LastBeaconUiTextBoxScrollAxis::Horizontal;
            }
            if scroll_drag.active_text_box == Some(input.entity) {
                out.push((i, scroll_drag.axis));
            }
        }
        i = i + 1;
    }
    assert(inputs@.take(inputs.len() as int) =~= inputs@);
    out
}

/// Whether the pointer is over a text box: its relative cursor position
/// decides when it has one; otherwise any interaction other than idle.
pub fn text_box_cursor_is_over(
    cursor_over: Option<bool>,
    interaction: Option<crate::input::ButtonInteraction>,
) -> (r: bool)
    ensures
        r == match cursor_over {
            Some(over) => over,
            None => interaction matches Some(i) && i != crate::input::ButtonInteraction::Idle,
        },
{
    match cursor_over {
        Some(over) => over,
        None => match interaction {
            Some(i) => i != crate::input::ButtonInteraction::Idle,
            None => false,
        },
    }
}

} // verus!
