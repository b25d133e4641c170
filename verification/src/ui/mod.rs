//! The menus and the heads-up display: which button press causes which
//! transition, and how buttons are tinted while hovered or pressed.

use vstd::prelude::*;

pub mod game_over_menu;
pub mod hud_menu;
pub mod main_menu;
pub mod pause_menu;

verus! {

/// Registers every menu and the shared button handling.
pub struct UIPlugin;

/// Marks any clickable menu button.
pub struct UIButton;

/// What the pointer is doing to a button this frame.
#[derive(Clone, Copy, Debug, PartialEq, Eq, Structural)]
pub enum Interaction {
    Pressed,
    Hovered,
    Idle,
}

/// A color with channels in thousandths.
#[derive(Clone, Copy, Debug, PartialEq, Eq, Structural)]
pub struct Color {
    pub red: u16,
    pub green: u16,
    pub blue: u16,
}

/// The tint a button shows for each interaction: green while pressed,
/// light grey while hovered, dark grey otherwise.
pub open spec fn button_color(interaction: Interaction) -> Color {
    match interaction {
        Interaction::Pressed => Color { red: 350, green: 750, blue: 350 },
        Interaction::Hovered => Color { red: 350, green: 350, blue: 350 },
        Interaction::Idle => Color { red: 150, green: 150, blue: 150 },
    }
}

/// The background color a button takes after this frame's interaction.
pub fn handle_button_color_change(interaction: Interaction) -> (c: Color)
    ensures
        c == button_color(interaction),
{
    match interaction {
        Interaction::Pressed => Color { red: 350, green: 750, blue: 350 },
        Interaction::Hovered => Color { red: 350, green: 350, blue: 350 },
        Interaction::Idle => Color { red: 150, green: 150, blue: 150 },
    }
}

/// Button handling only runs while some button's interaction changed.
pub fn ui_button_present(changed_buttons: usize) -> (present: bool)
    ensures
        present == (changed_buttons > 0),
{
    changed_buttons > 0
}

} // verus!
