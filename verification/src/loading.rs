//! The loading screen.

use vstd::prelude::*;
use crate::AppState;

verus! {

/// The loading screen waits for the assets; once all are loaded it asks for
/// the menu.
pub fn continue_to_state(assets_loaded: bool) -> (next: Option<AppState>)
    ensures
        next == (if assets_loaded {
            Some(AppState::Menu)
        } else {
            None
        }),
        next.is_some() ==> crate::screen_step(AppState::Loading, next.unwrap()),
{
    if assets_loaded {
        Some(AppState::Menu)
    } else {
        None
    }
}

} // verus!
