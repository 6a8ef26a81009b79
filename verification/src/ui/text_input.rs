//! How an authored text input is turned into an editable text widget.
use vstd::prelude::*;

verus! {

/// An authored text value made editable when clicked.
#[derive(Clone, Debug, Default, PartialEq, Eq)]
pub struct LastBeaconUiTextInput {
    /// Initial value shown in the input.
    pub value: String,
    /// Whether the input should allow newline entry.
    pub multiline: bool,
}

/// How the text of an input is laid out.
#[derive(Clone, Copy, Debug, PartialEq, Eq, Structural)]
pub enum TextInputLayout {
    /// The text layout's defaults.
    Default,
    /// Lines never wrap (multiline text boxes scroll instead).
    NoWrap,
    /// Centered (number fields).
    Centered,
}

/// The width given to the text's layout node.
#[derive(Clone, Copy, Debug, PartialEq, Eq, Structural)]
pub enum TextNodeWidth {
    /// Whatever the node already has (or the default, for a new node).
    Keep,
    /// The parent's full width.
    FullParent,
    /// The fixed width of a number field's value.
    NumberValue,
}

/// What to do with the text's layout node.
#[derive(Clone, Copy, Debug, PartialEq, Eq, Structural)]
pub struct TextNodeSetup {
    /// Whether a new node is inserted (the text has none yet).
    pub insert_new: bool,
    pub width: TextNodeWidth,
    /// Whether the node takes the parent's full height.
    pub full_height: bool,
    /// Whether the node centers its content both ways.
    pub centered: bool,
}

/// The editable-text configuration of an input.
#[derive(Clone, Copy, Debug, PartialEq, Eq, Structural)]
pub struct TextInputSetup {
    /// Newlines may be typed.
    pub allow_newlines: bool,
    /// The caret starts at the text's start (multiline) rather than its end.
    pub caret_at_start: bool,
    /// The editor shows a single line of a fixed visible width.
    pub single_line_viewport: bool,
    /// The input tracks the cursor position (for wheel scrolling).
    pub tracks_cursor_position: bool,
    /// Lines use the text box's fixed line height instead of the default.
    pub fixed_line_height: bool,
    pub layout: TextInputLayout,
    pub node: TextNodeSetup,
    /// Only number characters may be typed.
    pub number_characters_only: bool,
}

/// The node setup for an input: an existing node takes the parent's full
/// height when multiline, the number width when a number field, else the
/// full width when multiline, and is centered when a number field; a new node
/// is configured for the first of multiline, number field, plain input.
pub open spec fn node_setup(multiline: bool, is_number_input: bool, text_has_node: bool) -> TextNodeSetup {
    if text_has_node {
        TextNodeSetup {
            insert_new: false,
            width: if is_number_input {
                TextNodeWidth::NumberValue
            } else if multiline {
                TextNodeWidth::FullParent
            } else {
                TextNodeWidth::Keep
            },
            full_height: multiline,
            centered: is_number_input,
        }
    } else if multiline {
        TextNodeSetup {
            insert_new: true,
            width: TextNodeWidth::FullParent,
            full_height: true,
            centered: false,
        }
    } else if is_number_input {
        TextNodeSetup {
            insert_new: true,
            width: TextNodeWidth::NumberValue,
            full_height: false,
            centered: true,
        }
    } else {
        TextNodeSetup {
            insert_new: true,
            width: TextNodeWidth::Keep,
            full_height: false,
            centered: false,
        }
    }
}

/// The setup of an input, from whether it is multiline, whether its text is
/// a number field's, and whether its text already has a layout node.
pub open spec fn input_setup(multiline: bool, is_number_input: bool, text_has_node: bool) -> TextInputSetup {
    TextInputSetup {
        allow_newlines: multiline,
        caret_at_start: multiline,
        single_line_viewport: !multiline,
        tracks_cursor_position: multiline,
        fixed_line_height: multiline,
        layout: if multiline {
            TextInputLayout::NoWrap
        } else if is_number_input {
            TextInputLayout::Centered
        } else {
            TextInputLayout::Default
        },
        node: node_setup(multiline, is_number_input, text_has_node),
        number_characters_only: is_number_input,
    }
}

/// How a newly authored text input becomes an editable text widget.
pub fn initialize_last_beacon_ui_text_inputs(
    text_input: &LastBeaconUiTextInput,
    is_number_input: bool,
    text_has_node: bool,
) -> (r: TextInputSetup)
    ensures
        r == input_setup(text_input.multiline, is_number_input, text_has_node),
{
    let multiline = text_input.multiline;
    let layout = if multiline {
        TextInputLayout::NoWrap
    } else if is_number_input {
        TextInputLayout::Centered
    } else {
        TextInputLayout::Default
    };
    let node = if text_has_node {
        TextNodeSetup {
            insert_new: false,
            width: if is_number_input {
                TextNodeWidth::NumberValue
            } else if multiline {
                TextNodeWidth::FullParent
            } else {
                TextNodeWidth::Keep
            },
            full_height: multiline,
            centered: is_number_input,
        }
    } else if multiline {
        TextNodeSetup {
            insert_new: true,
            width: TextNodeWidth::FullParent,
            full_height: true,
            centered: false,
        }
    } else if is_number_input {
        TextNodeSetup {
            insert_new: true,
            width: TextNodeWidth::NumberValue,
            full_height: false,
            centered: true,
        }
    } else {
        TextNodeSetup {
            insert_new: true,
            width: TextNodeWidth::Keep,
            full_height: false,
            centered: false,
        }
    };
    TextInputSetup {
        allow_newlines: multiline,
        caret_at_start: multiline,
        single_line_viewport: !multiline,
        tracks_cursor_position: multiline,
        fixed_line_height: multiline,
        layout,
        node,
        number_characters_only: is_number_input,
    }
}

/// Whether a number field's editable value text is stuck showing nothing
/// while holding a value, and must be replaced by a fresh one: its layout has
/// no glyphs although its value is not empty.
pub fn heal_last_beacon_ui_value_text_stuck_glyphs(layout_has_glyphs: bool, current_value: &str) -> (r:
    bool)
    ensures
        r == (!layout_has_glyphs && current_value@.len() > 0),
{
    !layout_has_glyphs && !current_value.is_empty()
}

} // verus!
