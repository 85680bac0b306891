//! Buttons: how the pointer stands to a button, and how the button looks.
use vstd::prelude::*;

verus! {

/// How the pointer stands to a button in the current frame.
#[derive(Clone, Copy, PartialEq, Eq, Structural, Debug)]
pub enum ButtonInteraction {
    /// The button is being pressed.
    Clicked,
    /// The pointer is over the button.
    Hovered,
    /// Neither.
    Idle,
}

/// The three looks of a button.
#[derive(Clone, Copy, PartialEq, Eq, Structural, Debug)]
pub enum ButtonLook {
    /// Dark grey.
    Normal,
    /// Purple.
    Hovered,
    /// Green.
    Pressed,
}

/// The look that goes with an interaction.
pub open spec fn spec_button_look(i: ButtonInteraction) -> ButtonLook {
    match i {
        ButtonInteraction::Clicked => ButtonLook::Pressed,
        ButtonInteraction::Hovered => ButtonLook::Hovered,
        ButtonInteraction::Idle => ButtonLook::Normal,
    }
}

/// The look of a button: pressed while clicked, highlighted while hovered,
/// normal otherwise.
pub fn button_look(i: ButtonInteraction) -> (r: ButtonLook)
    ensures
        r == spec_button_look(i),
{
    match i {
        ButtonInteraction::Clicked => ButtonLook::Pressed,
        ButtonInteraction::Hovered => ButtonLook::Hovered,
        ButtonInteraction::Idle => ButtonLook::Normal,
    }
}

} // verus!
