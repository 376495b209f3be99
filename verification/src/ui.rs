//! What a button looks like for each state of the pointer over it.

use vstd::prelude::*;

verus! {

/// What the pointer does to a button.
#[derive(Clone, Copy, PartialEq, Eq, Structural, Debug)]
pub enum Interaction {
    /// The pointer is elsewhere.
    Idle,
    /// The pointer rests on the button.
    Hovered,
    /// The button is pressed.
    Pressed,
}

/// The named colours of the interface.
#[derive(Clone, Copy, PartialEq, Eq, Structural, Debug)]
pub enum Pallette {
    White,
    Lighter,
    Light,
    Dark,
    Darker,
    Black,
}

/// The three colours of a text button.
#[derive(Clone, Copy, PartialEq, Eq, Structural, Debug)]
pub struct ButtonColors {
    pub background: Pallette,
    pub border: Pallette,
    pub text: Pallette,
}

/// The colours of a text button under `interaction`: a light face when idle
/// and a dark one otherwise, a white border while pressed and a black one
/// otherwise, and black text throughout.
pub open spec fn button_colors_spec(interaction: Interaction) -> ButtonColors {
    ButtonColors {
        background: if interaction == Interaction::Idle {
            Pallette::Lighter
        } else {
            Pallette::Darker
        },
        border: if interaction == Interaction::Pressed {
            Pallette::White
        } else {
            Pallette::Black
        },
        text: Pallette::Black,
    }
}

/// The colours to give a text button whose interaction changed.
pub fn button_colors(interaction: Interaction) -> (colors: ButtonColors)
    ensures
        colors == button_colors_spec(interaction),
{
    match interaction {
        Interaction::Idle => ButtonColors {
            background: Pallette::Lighter,
            border: Pallette::Black,
            text: Pallette::Black,
        },
        Interaction::Hovered => ButtonColors {
            background: Pallette::Darker,
            border: Pallette::Black,
            text: Pallette::Black,
        },
        Interaction::Pressed => ButtonColors {
            background: Pallette::Darker,
            border: Pallette::White,
            text: Pallette::Black,
        },
    }
}

/// The tile of a button's sprite sheet to show under `interaction`: 0 when
/// idle, 1 when hovered, 2 when pressed.
pub open spec fn atlas_index_spec(interaction: Interaction) -> usize {
    match interaction {
        Interaction::Idle => 0,
        Interaction::Hovered => 1,
        Interaction::Pressed => 2,
    }
}

/// The tile to show on an image button whose interaction changed.
pub fn atlas_index(interaction: Interaction) -> (index: usize)
    ensures
        index == atlas_index_spec(interaction),
{
    match interaction {
        Interaction::Idle => 0,
        Interaction::Hovered => 1,
        Interaction::Pressed => 2,
    }
}

/// How many of `interactions` are presses.
pub open spec fn presses(interactions: Seq<Interaction>) -> nat
    decreases interactions.len(),
{
    if interactions.len() == 0 {
        0
    } else {
        presses(interactions.drop_last()) + if interactions.last() == Interaction::Pressed {
            1nat
        } else {
            0nat
        }
    }
}

} // verus!
