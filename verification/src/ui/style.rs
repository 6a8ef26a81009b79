//! Which theme colors the reusable buttons and tabs wear in each state.
//!
//! A style names theme color tokens, optionally at a reduced opacity; the
//! caller resolves the tokens against the loaded UI theme.
use vstd::prelude::*;

use crate::input::ButtonInteraction;
use crate::text::{ascii_lowercased, str_eq, to_ascii_lowercase, trim, trimmed};
use crate::ui::state::{selection_matches, tab_is_selected, LastBeaconUiTabSelections, TabInteraction};

verus! {

/// A named color of the UI theme.
#[derive(Clone, Copy, Debug, PartialEq, Eq, Structural)]
pub enum UiColorToken {
    Accent,
    AccentHover,
    AccentPressed,
    AccentSoft,
    SecondaryAccent,
    TextOnAccent,
    TextPrimary,
    TextMuted,
    Surface,
    SurfaceStrong,
    Border,
    BorderHover,
    Transparent,
}

/// A theme color, at full opacity or at `alpha_percent` percent opacity.
#[derive(Clone, Copy, Debug, PartialEq, Eq, Structural)]
pub struct ThemeColor {
    pub token: UiColorToken,
    pub alpha_percent: Option<u8>,
}

/// The colors of a widget in one state.
#[derive(Clone, Copy, Debug, PartialEq, Eq, Structural)]
pub struct LastBeaconWidgetStyle {
    pub background_color: ThemeColor,
    pub border_color: ThemeColor,
    pub text_color: ThemeColor,
}

/// The reusable button variants.
#[derive(Clone, Copy, Debug, PartialEq, Eq, Structural)]
pub enum ButtonVariant {
    Primary,
    Secondary,
    Tertiary,
}

/// The reusable button treatment, by variant name.
#[derive(Clone, Debug, PartialEq, Eq)]
pub struct LastBeaconUiButton {
    /// Button variant: `primary`, `secondary`, or `tertiary`.
    pub variant: String,
}

impl Default for LastBeaconUiButton {
    fn default() -> (r: LastBeaconUiButton)
        ensures
            r.variant@ == "secondary"@,
    {
        LastBeaconUiButton { variant: "secondary".to_owned() }
    }
}

/// A main-menu primary button that keeps the accent background.
#[derive(Clone, Copy, Debug, Default, PartialEq, Eq)]
pub struct LastBeaconMainMenuPrimaryButton;

/// A Beacon primary action that keeps the secondary-accent background.
#[derive(Clone, Copy, Debug, Default, PartialEq, Eq)]
pub struct LastBeaconBeaconPrimaryButton;

/// A Beacon navigation tab that keeps a transparent background.
#[derive(Clone, Copy, Debug, Default, PartialEq, Eq)]
pub struct LastBeaconBeaconTabButton;

/// The variant a variant name selects: case-insensitive and ignoring
/// surrounding white space, `primary` and `tertiary` select themselves and
/// every other name selects the secondary treatment.
pub open spec fn variant_named(variant: Seq<char>) -> ButtonVariant {
    let normalized = ascii_lowercased(trimmed(variant));
    if normalized == "primary"@ {
        ButtonVariant::Primary
    } else if normalized == "tertiary"@ {
        ButtonVariant::Tertiary
    } else {
        ButtonVariant::Secondary
    }
}

/// A full-opacity theme color.
pub open spec fn solid(token: UiColorToken) -> ThemeColor {
    ThemeColor { token, alpha_percent: None }
}

/// A theme color at `percent` percent opacity.
pub open spec fn faded(token: UiColorToken, percent: u8) -> ThemeColor {
    ThemeColor { token, alpha_percent: Some(percent) }
}

/// The style of three colors.
pub open spec fn style_of(background: ThemeColor, border: ThemeColor, text: ThemeColor) -> LastBeaconWidgetStyle {
    LastBeaconWidgetStyle { background_color: background, border_color: border, text_color: text }
}

/// The shipped button style for each variant and interaction.
pub open spec fn button_style(variant: ButtonVariant, interaction: ButtonInteraction) -> LastBeaconWidgetStyle {
    match (variant, interaction) {
        (ButtonVariant::Primary, ButtonInteraction::Pressed) => style_of(
            solid(UiColorToken::AccentPressed),
            solid(UiColorToken::AccentPressed),
            solid(UiColorToken::TextOnAccent),
        ),
        (ButtonVariant::Primary, ButtonInteraction::Hovered) => style_of(
            solid(UiColorToken::AccentHover),
            solid(UiColorToken::AccentHover),
            solid(UiColorToken::TextOnAccent),
        ),
        (ButtonVariant::Primary, ButtonInteraction::Idle) => style_of(
            solid(UiColorToken::Accent),
            solid(UiColorToken::Accent),
            solid(UiColorToken::TextOnAccent),
        ),
        (ButtonVariant::Tertiary, ButtonInteraction::Pressed) => style_of(
            faded(UiColorToken::Accent, 18),
            solid(UiColorToken::Accent),
            solid(UiColorToken::Accent),
        ),
        (ButtonVariant::Tertiary, ButtonInteraction::Hovered) => style_of(
            faded(UiColorToken::Accent, 10),
            solid(UiColorToken::Accent),
            solid(UiColorToken::AccentHover),
        ),
        (ButtonVariant::Tertiary, ButtonInteraction::Idle) => style_of(
            solid(UiColorToken::Transparent),
            solid(UiColorToken::Border),
            solid(UiColorToken::TextMuted),
        ),
        (ButtonVariant::Secondary, ButtonInteraction::Pressed) => style_of(
            solid(UiColorToken::SurfaceStrong),
            solid(UiColorToken::TextMuted),
            solid(UiColorToken::TextPrimary),
        ),
        (ButtonVariant::Secondary, ButtonInteraction::Hovered) => style_of(
            solid(UiColorToken::SurfaceStrong),
            solid(UiColorToken::BorderHover),
            solid(UiColorToken::TextPrimary),
        ),
        (ButtonVariant::Secondary, ButtonInteraction::Idle) => style_of(
            solid(UiColorToken::Surface),
            solid(UiColorToken::Border),
            solid(UiColorToken::TextPrimary),
        ),
    }
}

/// The shipped tab style for each selection and interaction.
pub open spec fn tab_style(is_selected: bool, interaction: ButtonInteraction) -> LastBeaconWidgetStyle {
    if is_selected {
        if interaction == ButtonInteraction::Pressed {
            style_of(
                faded(UiColorToken::Accent, 22),
                solid(UiColorToken::Accent),
                solid(UiColorToken::Accent),
            )
        } else {
            style_of(
                solid(UiColorToken::AccentSoft),
                solid(UiColorToken::Accent),
                solid(UiColorToken::Accent),
            )
        }
    } else if interaction == ButtonInteraction::Pressed {
        style_of(
            faded(UiColorToken::Accent, 16),
            solid(UiColorToken::Accent),
            solid(UiColorToken::Accent),
        )
    } else if interaction == ButtonInteraction::Hovered {
        style_of(
            faded(UiColorToken::Accent, 8),
            solid(UiColorToken::Border),
            solid(UiColorToken::TextPrimary),
        )
    } else {
        style_of(
            solid(UiColorToken::Transparent),
            solid(UiColorToken::Transparent),
            solid(UiColorToken::TextMuted),
        )
    }
}

/// The variant a variant name selects.
pub fn button_variant(variant: &str) -> (r: ButtonVariant)
    ensures
        r == variant_named(variant@),
{
    let trimmed_variant = trim(variant);
    let normalized_variant = to_ascii_lowercase(trimmed_variant.as_str());
    if str_eq(normalized_variant.as_str(), "primary") {
        ButtonVariant::Primary
    } else if str_eq(normalized_variant.as_str(), "tertiary") {
        ButtonVariant::Tertiary
    } else {
        ButtonVariant::Secondary
    }
}

fn color(token: UiColorToken) -> (r: ThemeColor)
    ensures
        r == solid(token),
{
    ThemeColor { token, alpha_percent: None }
}

fn color_alpha(token: UiColorToken, percent: u8) -> (r: ThemeColor)
    ensures
        r == faded(token, percent),
{
    ThemeColor { token, alpha_percent: Some(percent) }
}

/// The colors of a reusable button with variant name `variant` in state `interaction`.
pub fn reusable_button_style(variant: &str, interaction: ButtonInteraction) -> (r:
    LastBeaconWidgetStyle)
    ensures
        r == button_style(variant_named(variant@), interaction),
{
    let background;
    let border;
    let text;
    match (button_variant(variant), interaction) {
        (ButtonVariant::Primary, ButtonInteraction::Pressed) => {
            background = color(UiColorToken::AccentPressed);
            border = color(UiColorToken::AccentPressed);
            text = color(UiColorToken::TextOnAccent);
        },
        (ButtonVariant::Primary, ButtonInteraction::Hovered) => {
            background = color(UiColorToken::AccentHover);
            border = color(UiColorToken::AccentHover);
            text = color(UiColorToken::TextOnAccent);
        },
        (ButtonVariant::Primary, _) => {
            background = color(UiColorToken::Accent);
            border = color(UiColorToken::Accent);
            text = color(UiColorToken::TextOnAccent);
        },
        (ButtonVariant::Tertiary, ButtonInteraction::Pressed) => {
            background = color_alpha(UiColorToken::Accent, 18);
            border = color(UiColorToken::Accent);
            text = color(UiColorToken::Accent);
        },
        (ButtonVariant::Tertiary, ButtonInteraction::Hovered) => {
            background = color_alpha(UiColorToken::Accent, 10);
            border = color(UiColorToken::Accent);
            text = color(UiColorToken::AccentHover);
        },
        (ButtonVariant::Tertiary, _) => {
            background = color(UiColorToken::Transparent);
            border = color(UiColorToken::Border);
            text = color(UiColorToken::TextMuted);
        },
        (_, ButtonInteraction::Pressed) => {
            background = color(UiColorToken::SurfaceStrong);
            border = color(UiColorToken::TextMuted);
            text = color(UiColorToken::TextPrimary);
        },
        (_, ButtonInteraction::Hovered) => {
            background = color(UiColorToken::SurfaceStrong);
            border = color(UiColorToken::BorderHover);
            text = color(UiColorToken::TextPrimary);
        },
        (_, _) => {
            background = color(UiColorToken::Surface);
            border = color(UiColorToken::Border);
            text = color(UiColorToken::TextPrimary);
        },
    }
    LastBeaconWidgetStyle { background_color: background, border_color: border, text_color: text }
}

/// The colors of a reusable tab, selected or not, in state `interaction`.
pub fn reusable_tab_style(is_selected: bool, interaction: ButtonInteraction) -> (r:
    LastBeaconWidgetStyle)
    ensures
        r == tab_style(is_selected, interaction),
{
    match (is_selected, interaction) {
        (true, ButtonInteraction::Pressed) => LastBeaconWidgetStyle {
            background_color: color_alpha(UiColorToken::Accent, 22),
            border_color: color(UiColorToken::Accent),
            text_color: color(UiColorToken::Accent),
        },
        (true, _) => LastBeaconWidgetStyle {
            background_color: color(UiColorToken::AccentSoft),
            border_color: color(UiColorToken::Accent),
            text_color: color(UiColorToken::Accent),
        },
        (false, ButtonInteraction::Pressed) => LastBeaconWidgetStyle {
            background_color: color_alpha(UiColorToken::Accent, 16),
            border_color: color(UiColorToken::Accent),
            text_color: color(UiColorToken::Accent),
        },
        (false, ButtonInteraction::Hovered) => LastBeaconWidgetStyle {
            background_color: color_alpha(UiColorToken::Accent, 8),
            border_color: color(UiColorToken::Border),
            text_color: color(UiColorToken::TextPrimary),
        },
        (false, _) => LastBeaconWidgetStyle {
            background_color: color(UiColorToken::Transparent),
            border_color: color(UiColorToken::Transparent),
            text_color: color(UiColorToken::TextMuted),
        },
    }
}

/// Which fixed-background button marker an entity carries.
#[derive(Clone, Copy, Debug, PartialEq, Eq, Structural)]
pub enum FixedBackgroundButton {
    MainMenuPrimary,
    BeaconPrimary,
    BeaconTab,
}

/// The background a marked button keeps whatever its interaction: the accent
/// for main-menu primaries, the secondary accent for Beacon primaries, and
/// transparent for Beacon navigation tabs.
pub fn fixed_button_background(marker: FixedBackgroundButton) -> (r: ThemeColor)
    ensures
        r == solid(
            match marker {
                FixedBackgroundButton::MainMenuPrimary => UiColorToken::Accent,
                FixedBackgroundButton::BeaconPrimary => UiColorToken::SecondaryAccent,
                FixedBackgroundButton::BeaconTab => UiColorToken::Transparent,
            },
        ),
{
    match marker {
        FixedBackgroundButton::MainMenuPrimary => color(UiColorToken::Accent),
        FixedBackgroundButton::BeaconPrimary => color(UiColorToken::SecondaryAccent),
        FixedBackgroundButton::BeaconTab => color(UiColorToken::Transparent),
    }
}

/// A reusable button and its current interaction.
pub struct ButtonInteractionState {
    pub button: LastBeaconUiButton,
    pub interaction: ButtonInteraction,
}

/// The styles the reusable buttons and tabs are given this frame.
pub struct EnforcedStyles {
    pub button_styles: Vec<LastBeaconWidgetStyle>,
    pub tab_styles: Vec<LastBeaconWidgetStyle>,
}

/// Restyles every reusable button and tab, every frame: a button by its
/// variant and interaction, a tab by whether it is selected in its group
/// and its interaction. Styling every frame, rather than on interaction
/// changes only, lets the shared selection restyle tabs that were not
/// clicked and corrects any color written over in between.
pub fn enforce_last_beacon_button_styles(
    selections: &LastBeaconUiTabSelections,
    buttons: &Vec<ButtonInteractionState>,
    tabs: &Vec<TabInteraction>,
) -> (r: EnforcedStyles)
    ensures
        r.button_styles@.len() == buttons@.len(),
        forall|i: int|
            0 <= i < buttons@.len() ==> #[trigger] r.button_styles@[i] == button_style(
                variant_named(buttons@[i].button.variant@),
                buttons@[i].interaction,
            ),
        r.tab_styles@.len() == tabs@.len(),
        forall|i: int|
            0 <= i < tabs@.len() ==> #[trigger] r.tab_styles@[i] == tab_style(
                selection_matches(
                    selections@,
                    tabs@[i].tab.group@,
                    tabs@[i].tab.tab@,
                    tabs@[i].tab.selected,
                ),
                tabs@[i].interaction,
            ),
{
    let mut button_styles: Vec<LastBeaconWidgetStyle> = Vec::new();
    let mut i: usize = 0;
    while i < buttons.len()
        invariant
            i <= buttons.len(),
            button_styles@.len() == i,
            forall|k: int|
                0 <= k < i ==> #[trigger] button_styles@[k] == button_style(
                    variant_named(buttons@[k].button.variant@),
                    buttons@[k].interaction,
                ),
        decreases buttons.len() - i,
    {
        button_styles.push(
            reusable_button_style(buttons[i].button.variant.as_str(), buttons[i].interaction),
        );
        i = i + 1;
    }
    let mut tab_styles: Vec<LastBeaconWidgetStyle> = Vec::new();
    let mut j: usize = 0;
    while j < tabs.len()
        invariant
            j <= tabs.len(),
            tab_styles@.len() == j,
            forall|k: int|
                0 <= k < j ==> #[trigger] tab_styles@[k] == tab_style(
                    selection_matches(
                        selections@,
                        tabs@[k].tab.group@,
                        tabs@[k].tab.tab@,
                        tabs@[k].tab.selected,
                    ),
                    tabs@[k].interaction,
                ),
        decreases tabs.len() - j,
    {
        let tab = &tabs[j].tab;
        let is_selected = tab_is_selected(
            selections,
            tab.group.as_str(),
            tab.tab.as_str(),
            tab.selected,
        );
        tab_styles.push(reusable_tab_style(is_selected, tabs[j].interaction));
        j = j + 1;
    }
    EnforcedStyles { button_styles, tab_styles }
}

} // verus!
