//! The settings: their values, the settings screen's buttons, and when the
//! window follows a change.

use vstd::prelude::*;
use crate::ui::Interaction;
use crate::AppState;

verus! {

/// A size in whole pixels.
#[derive(Clone, Copy, PartialEq, Eq, Structural, Debug)]
pub struct Extent {
    pub x: u32,
    pub y: u32,
}

/// The window sizes on offer.
#[derive(Clone, Copy, PartialEq, Eq, Structural, Debug)]
pub enum Resolution {
    Sd,
    Hd,
    Uhd,
}

impl Default for Resolution {
    fn default() -> (resolution: Resolution)
        ensures
            resolution == Resolution::Hd,
    {
        Resolution::Hd
    }
}

impl Resolution {
    /// The window size of the resolution.
    pub open spec fn extent(self) -> Extent {
        match self {
            Resolution::Sd => Extent { x: 640, y: 480 },
            Resolution::Hd => Extent { x: 1920, y: 1080 },
            Resolution::Uhd => Extent { x: 3840, y: 2160 },
        }
    }

    /// The factor by which sprites are enlarged at the resolution.
    pub open spec fn sprite_factor(self) -> u32 {
        match self {
            Resolution::Sd => 2,
            Resolution::Hd => 5,
            Resolution::Uhd => 10,
        }
    }

    /// The window size of the resolution.
    pub fn vec2(&self) -> (extent: Extent)
        ensures
            extent == self.extent(),
    {
        match self {
            Resolution::Sd => Extent { x: 640, y: 480 },
            Resolution::Hd => Extent { x: 1920, y: 1080 },
            Resolution::Uhd => Extent { x: 3840, y: 2160 },
        }
    }

    /// The factor by which sprites are enlarged at the resolution.
    pub fn scale(&self) -> (factor: u32)
        ensures
            factor == self.sprite_factor(),
    {
        match self {
            Resolution::Sd => 2,
            Resolution::Hd => 5,
            Resolution::Uhd => 10,
        }
    }
}

/// What the user has chosen, with a mark that says whether a choice was made
/// since the window was last checked against it.
#[derive(Debug)]
pub struct Settings {
    resolution: Resolution,
    monitor: usize,
    /// Whether clicks are made for the user. A write to the field itself
    /// leaves the mark as it is.
    pub auto_click: bool,
    changed: bool,
}

/// What a [`Settings`] holds.
pub struct SettingsView {
    pub resolution: Resolution,
    pub monitor: usize,
    pub auto_click: bool,
    /// Whether a setting was written since the window was last checked.
    pub changed: bool,
}

impl View for Settings {
    type V = SettingsView;

    closed spec fn view(&self) -> SettingsView {
        SettingsView {
            resolution: self.resolution,
            monitor: self.monitor,
            auto_click: self.auto_click,
            changed: self.changed,
        }
    }
}

impl Default for Settings {
    fn default() -> (settings: Settings)
        ensures
            settings@ == (SettingsView {
                resolution: Resolution::Hd,
                monitor: 0,
                auto_click: false,
                changed: true,
            }),
    {
        Settings { resolution: Resolution::Hd, monitor: 0, auto_click: false, changed: true }
    }
}

impl Settings {
    /// Settings with the given values. They count as changed, so that the
    /// window is checked against them once at the start.
    pub fn new(resolution: Resolution, monitor: usize, auto_click: bool) -> (settings: Settings)
        ensures
            settings@ == (SettingsView { resolution, monitor, auto_click, changed: true }),
    {
        Settings { resolution, monitor, auto_click, changed: true }
    }

    /// Chooses a resolution. The settings count as changed even where the
    /// resolution is the one they had.
    pub fn set_resolution(&mut self, resolution: Resolution)
        ensures
            final(self)@ == (SettingsView { resolution, changed: true, ..old(self)@ }),
    {
        self.resolution = resolution;
        self.changed = true;
    }

    /// The window size of the chosen resolution.
    pub fn resolution(&self) -> (extent: Extent)
        ensures
            extent == self@.resolution.extent(),
    {
        self.resolution.vec2()
    }

    /// The factor by which sprites are enlarged at the chosen resolution.
    pub fn sprite_scale(&self) -> (factor: u32)
        ensures
            factor == self@.resolution.sprite_factor(),
    {
        self.resolution.scale()
    }

    /// The number of the monitor that the window opens on.
    pub fn monitor_index(&self) -> (index: usize)
        ensures
            index == self@.monitor,
    {
        self.monitor
    }

    /// Whether clicks are made for the user.
    pub fn auto_click(&self) -> (on: bool)
        ensures
            on == self@.auto_click,
    {
        self.auto_click
    }

    /// The chosen resolution.
    pub fn chosen_resolution(&self) -> (resolution: Resolution)
        ensures
            resolution == self@.resolution,
    {
        self.resolution
    }
}

/// The buttons of the settings screen.
#[derive(Clone, Copy, PartialEq, Eq, Structural, Debug)]
pub enum SettingsMenuButton {
    Sd,
    Hd,
    Uhd,
    Back,
    Dog,
    AutoClick,
}

/// The settings after a press of `button`: a resolution button chooses its
/// resolution, the auto-click button flips the switch, and both mark the
/// settings as changed. The other buttons leave the settings alone.
pub open spec fn settings_press(settings: SettingsView, button: SettingsMenuButton) -> SettingsView {
    match button {
        SettingsMenuButton::Sd => SettingsView {
            resolution: Resolution::Sd,
            changed: true,
            ..settings
        },
        SettingsMenuButton::Hd => SettingsView {
            resolution: Resolution::Hd,
            changed: true,
            ..settings
        },
        SettingsMenuButton::Uhd => SettingsView {
            resolution: Resolution::Uhd,
            changed: true,
            ..settings
        },
        SettingsMenuButton::AutoClick => SettingsView {
            auto_click: !settings.auto_click,
            changed: true,
            ..settings
        },
        SettingsMenuButton::Back => settings,
        SettingsMenuButton::Dog => settings,
    }
}

/// The settings after the button events of a frame, taken first to last.
/// Only presses count.
pub open spec fn settings_after(
    settings: SettingsView,
    events: Seq<(Interaction, SettingsMenuButton)>,
) -> SettingsView
    decreases events.len(),
{
    if events.len() == 0 {
        settings
    } else if events.last().0 == Interaction::Pressed {
        settings_press(settings_after(settings, events.drop_last()), events.last().1)
    } else {
        settings_after(settings, events.drop_last())
    }
}

/// How many of `events` are presses of `button`.
pub open spec fn presses_of(
    events: Seq<(Interaction, SettingsMenuButton)>,
    button: SettingsMenuButton,
) -> nat
    decreases events.len(),
{
    if events.len() == 0 {
        0
    } else {
        presses_of(events.drop_last(), button) + if events.last() == (
            Interaction::Pressed,
            button,
        ) {
            1nat
        } else {
            0nat
        }
    }
}

/// What the settings screen asks of its host after the button events of a
/// frame.
#[derive(Clone, Copy, PartialEq, Eq, Structural, Debug)]
pub struct SettingsActions {
    /// The screen to go to, if any.
    pub next_state: Option<AppState>,
    /// How many dogs to put on the screen, each at a place of the host's
    /// choosing.
    pub dogs: usize,
}

/// Reads the button events of a frame on the settings screen. The settings
/// follow the presses in their order; a press of the back button asks for the
/// menu; each press of the dog button asks for one dog, provided that there
/// is a window to put it in.
pub fn settings_button_interaction(
    settings: &mut Settings,
    has_window: bool,
    events: &Vec<(Interaction, SettingsMenuButton)>,
) -> (actions: SettingsActions)
    ensures
        final(settings)@ == settings_after(old(settings)@, events@),
        actions.next_state == (if presses_of(events@, SettingsMenuButton::Back) > 0 {
            Some(AppState::Menu)
        } else {
            None
        }),
        actions.dogs == (if has_window {
            presses_of(events@, SettingsMenuButton::Dog)
        } else {
            0
        }),
{
    let mut next_state: Option<AppState> = None;
    let mut dogs: usize = 0;
    let mut i: usize = 0;
    while i < events.len()
        invariant
            i <= events@.len(),
            settings@ == settings_after(old(settings)@, events@.take(i as int)),
            next_state == (if presses_of(events@.take(i as int), SettingsMenuButton::Back) > 0 {
                Some(AppState::Menu)
            } else {
                None
            }),
            dogs == (if has_window {
                presses_of(events@.take(i as int), SettingsMenuButton::Dog)
            } else {
                0
            }),
            dogs <= i,
        decreases events@.len() - i,
    {
        proof {
            assert(events@.take(i + 1).drop_last() == events@.take(i as int));
        }
        let (interaction, button) = events[i];
        if interaction == Interaction::Pressed {
            match button {
                SettingsMenuButton::Sd => {
                    settings.set_resolution(Resolution::Sd);
                },
                SettingsMenuButton::Hd => {
                    settings.set_resolution(Resolution::Hd);
                },
                SettingsMenuButton::Uhd => {
                    settings.set_resolution(Resolution::Uhd);
                },
                SettingsMenuButton::Back => {
                    next_state = Some(AppState::Menu);
                },
                SettingsMenuButton::Dog => {
                    if has_window {
                        dogs += 1;
                    }
                },
                SettingsMenuButton::AutoClick => {
                    settings.auto_click = !settings.auto_click;
                    settings.changed = true;
                },
            }
        }
        i += 1;
    }
    proof {
        assert(events@.take(i as int) == events@);
    }
    SettingsActions { next_state, dogs }
}

/// Whether the window is to be resized, and to what: the settings changed
/// since the last check, there is a window, and both its width and its height
/// differ from those of the chosen resolution.
pub open spec fn resize_to(settings: SettingsView, window: Option<Extent>) -> Option<Extent> {
    if settings.changed && window.is_some() && window.unwrap().x
        != settings.resolution.extent().x && window.unwrap().y
        != settings.resolution.extent().y {
        Some(settings.resolution.extent())
    } else {
        None
    }
}

/// Checks the window against the settings, where they changed since the last
/// check, and returns the size to give the window, if any. `window` is the
/// window's size, or `None` where there is no window. The check takes the
/// mark off the settings.
pub fn update_settings(settings: &mut Settings, window: Option<Extent>) -> (size: Option<Extent>)
    ensures
        size == resize_to(old(settings)@, window),
        final(settings)@ == (SettingsView { changed: false, ..old(settings)@ }),
{
    let changed = settings.changed;
    settings.changed = false;
    if changed {
        if let Some(current) = window {
            let wanted = settings.resolution();
            if current.x != wanted.x && current.y != wanted.y {
                return Some(wanted);
            }
        }
    }
    None
}

/// The escape key on the settings screen leads back to the menu.
pub fn escape_to_menu(escape_pressed: bool, current_state: AppState) -> (next: Option<AppState>)
    ensures
        next == (if escape_pressed && current_state == AppState::Settings {
            Some(AppState::Menu)
        } else {
            None
        }),
        next.is_some() ==> crate::screen_step(current_state, next.unwrap()),
{
    if escape_pressed && current_state == AppState::Settings {
        Some(AppState::Menu)
    } else {
        None
    }
}

} // verus!
