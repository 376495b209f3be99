//! The main menu.

use vstd::prelude::*;
use crate::ui::Interaction;
use crate::AppState;

verus! {

/// The buttons of the main menu.
#[derive(Clone, Copy, PartialEq, Eq, Structural, Debug)]
pub enum MainMenuButton {
    Play,
    Settings,
    Exit,
}

impl MainMenuButton {
    /// The screen that the button leads to.
    pub open spec fn target(self) -> AppState {
        match self {
            MainMenuButton::Play => AppState::Playing,
            MainMenuButton::Settings => AppState::Settings,
            MainMenuButton::Exit => AppState::Exit,
        }
    }
}

/// The screen that the menu asks for after the button events of a frame:
/// that of the last button pressed, or none where no button was pressed.
pub open spec fn menu_choice(events: Seq<(Interaction, MainMenuButton)>) -> Option<AppState>
    decreases events.len(),
{
    if events.len() == 0 {
        None
    } else if events.last().0 == Interaction::Pressed {
        Some(events.last().1.target())
    } else {
        menu_choice(events.drop_last())
    }
}

/// Reads the button events of a frame on the menu screen, and returns the
/// screen to go to, if any.
pub fn menu_button_interaction(events: &Vec<(Interaction, MainMenuButton)>) -> (next: Option<
    AppState,
>)
    ensures
        next == menu_choice(events@),
        next.is_some() ==> crate::screen_step(AppState::Menu, next.unwrap()),
{
    let mut next: Option<AppState> = None;
    let mut i: usize = 0;
    while i < events.len()
        invariant
            i <= events@.len(),
            next == menu_choice(events@.take(i as int)),
            next.is_some() ==> crate::screen_step(AppState::Menu, next.unwrap()),
        decreases events@.len() - i,
    {
        proof {
            assert(events@.take(i + 1).drop_last() == events@.take(i as int));
        }
        let (interaction, button) = events[i];
        match interaction {
            Interaction::Pressed => match button {
                MainMenuButton::Play => {
                    next = Some(AppState::Playing);
                },
                MainMenuButton::Settings => {
                    next = Some(AppState::Settings);
                },
                MainMenuButton::Exit => {
                    next = Some(AppState::Exit);
                },
            },
            _ => {},
        }
        i += 1;
    }
    proof {
        assert(events@.take(i as int) == events@);
    }
    next
}

} // verus!
