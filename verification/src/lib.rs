//! Rules of an incremental clicker game: its screens, its pause switch, its
//! currency counter, and the unlocking of purchasable powers.
//!
//! The library decides; it draws nothing and touches no file. A host hands it
//! what happened in a frame as plain values and carries out what comes back.

use vstd::prelude::*;

pub mod game;
pub mod install;
pub mod loading;
pub mod menu;
pub mod save;
pub mod settings;
pub mod table;
pub mod ui;

verus! {

/// The screen that the application is on.
#[derive(Clone, Copy, PartialEq, Eq, Structural, PartialOrd, Ord, Hash, Debug)]
pub enum AppState {
    Loading,
    Menu,
    Playing,
    Settings,
    Exit,
}

impl Default for AppState {
    fn default() -> (state: AppState)
        ensures
            state == AppState::Loading,
    {
        AppState::Loading
    }
}

/// Whether play is suspended. It has a meaning only while the application is
/// on the `Playing` screen.
#[derive(Clone, Copy, PartialEq, Eq, Structural, PartialOrd, Ord, Hash, Debug)]
pub enum PauseState {
    Unpaused,
    Paused,
}

impl Default for PauseState {
    fn default() -> (state: PauseState)
        ensures
            state == PauseState::Unpaused,
    {
        PauseState::Unpaused
    }
}

impl PauseState {
    /// The other pause state.
    pub open spec fn flipped(self) -> PauseState {
        match self {
            PauseState::Unpaused => PauseState::Paused,
            PauseState::Paused => PauseState::Unpaused,
        }
    }
}

/// Whether one step of the screen flow leads from `from` to `to`: loading
/// ends in the menu, the menu opens play, the settings or the exit, and the
/// settings lead back to the menu. Nothing leaves `Exit`, and nothing leaves
/// `Playing` but the end of the process.
pub open spec fn screen_step(from: AppState, to: AppState) -> bool {
    match from {
        AppState::Loading => to == AppState::Menu,
        AppState::Menu => to == AppState::Playing || to == AppState::Settings || to
            == AppState::Exit,
        AppState::Settings => to == AppState::Menu,
        AppState::Playing => false,
        AppState::Exit => false,
    }
}

/// The routines that run once a frame, each under a condition on the state.
#[derive(Clone, Copy, PartialEq, Eq, Structural, Debug)]
pub enum GameSystem {
    /// Reads the menu's buttons.
    MenuButtons,
    /// Reads the settings screen's buttons.
    SettingsButtons,
    /// Reads the escape key on the settings screen.
    EscapeToMenu,
    /// Lets the window follow the settings.
    UpdateSettings,
    /// Reads the pause button.
    PauseClick,
    /// Handles the spawn requests.
    SpawnPowerButtons,
    /// Reads the click surface.
    ScreenClick,
    /// Writes the currency text.
    UpdatePowerText,
    /// Restyles the buttons outside the pause.
    ButtonStyleUnpaused,
    /// Restyles the buttons of the pause.
    ButtonStylePaused,
    /// Handles the save requests.
    SaveReader,
}

impl GameSystem {
    /// Whether the routine advances the game: these stand still in the pause.
    pub open spec fn is_gameplay(self) -> bool {
        self == GameSystem::SpawnPowerButtons || self == GameSystem::ScreenClick || self
            == GameSystem::UpdatePowerText
    }

    /// Whether the routine runs in a frame on screen `app` with pause state
    /// `pause`. The pause state counts on the play screen only: elsewhere
    /// play is neither paused nor unpaused.
    pub open spec fn runs(self, app: AppState, pause: PauseState) -> bool {
        match self {
            GameSystem::MenuButtons => app == AppState::Menu,
            GameSystem::SettingsButtons => app == AppState::Settings,
            GameSystem::EscapeToMenu => app == AppState::Settings,
            GameSystem::UpdateSettings => true,
            GameSystem::PauseClick => app == AppState::Playing,
            GameSystem::SpawnPowerButtons => app == AppState::Playing && pause
                == PauseState::Unpaused,
            GameSystem::ScreenClick => app == AppState::Playing && pause == PauseState::Unpaused,
            GameSystem::UpdatePowerText => app == AppState::Playing && pause
                == PauseState::Unpaused,
            GameSystem::ButtonStyleUnpaused => !(app == AppState::Playing && pause
                == PauseState::Paused),
            GameSystem::ButtonStylePaused => app == AppState::Playing && pause
                == PauseState::Paused,
            GameSystem::SaveReader => true,
        }
    }
}

/// Whether `system` runs in a frame on screen `app` with pause state `pause`.
pub fn system_runs(system: GameSystem, app: AppState, pause: PauseState) -> (yes: bool)
    ensures
        yes == system.runs(app, pause),
        system.is_gameplay() && pause == PauseState::Paused ==> !yes,
{
    let playing = app == AppState::Playing;
    let paused = playing && pause == PauseState::Paused;
    let unpaused = playing && pause == PauseState::Unpaused;
    match system {
        GameSystem::MenuButtons => app == AppState::Menu,
        GameSystem::SettingsButtons => app == AppState::Settings,
        GameSystem::EscapeToMenu => app == AppState::Settings,
        GameSystem::UpdateSettings => true,
        GameSystem::PauseClick => playing,
        GameSystem::SpawnPowerButtons => unpaused,
        GameSystem::ScreenClick => unpaused,
        GameSystem::UpdatePowerText => unpaused,
        GameSystem::ButtonStyleUnpaused => !paused,
        GameSystem::ButtonStylePaused => paused,
        GameSystem::SaveReader => true,
    }
}

/// The state after the requests of a frame are carried out. A request for a
/// screen is followed. Play begins unpaused each time the play screen is
/// entered; a request for a pause state is followed where the play screen
/// was on before the frame and stays on.
pub open spec fn next_state(
    app: AppState,
    pause: PauseState,
    app_request: Option<AppState>,
    pause_request: Option<PauseState>,
) -> (AppState, PauseState) {
    let to = if app_request.is_some() {
        app_request.unwrap()
    } else {
        app
    };
    if to != AppState::Playing || app != AppState::Playing {
        (to, PauseState::Unpaused)
    } else if pause_request.is_some() {
        (to, pause_request.unwrap())
    } else {
        (to, pause)
    }
}

/// Carries out the requests of a frame, and returns the state that the next
/// frame runs in.
pub fn apply_requests(
    app: AppState,
    pause: PauseState,
    app_request: Option<AppState>,
    pause_request: Option<PauseState>,
) -> (state: (AppState, PauseState))
    ensures
        state == next_state(app, pause, app_request, pause_request),
{
    let to = match app_request {
        Some(requested) => requested,
        None => app,
    };
    if to != AppState::Playing || app != AppState::Playing {
        (to, PauseState::Unpaused)
    } else {
        match pause_request {
            Some(requested) => (to, requested),
            None => (to, pause),
        }
    }
}

/// Flipping the pause twice gives the state that one started from.
pub proof fn lemma_flip_twice(pause: PauseState)
    ensures
        pause.flipped().flipped() == pause,
        pause.flipped() != pause,
{
}

/// While play is paused, no routine that advances the game runs, whatever
/// the screen.
pub proof fn lemma_pause_stops_gameplay(system: GameSystem, app: AppState)
    requires
        system.is_gameplay(),
    ensures
        !system.runs(app, PauseState::Paused),
{
}

/// A power's name.
#[derive(Clone, Debug)]
pub struct Title(String);

impl View for Title {
    type V = Seq<char>;

    closed spec fn view(&self) -> Seq<char> {
        self.0@
    }
}

impl Title {
    /// A name.
    pub fn new(title: String) -> (made: Title)
        ensures
            made@ == title@,
    {
        Title(title)
    }

    /// The name.
    pub fn title(&self) -> (title: &String)
        ensures
            title@ == self@,
    {
        &self.0
    }
}

/// A power's id: its place in the catalog, and its key in the unlock flags.
#[derive(Clone, Copy, Debug)]
pub struct ID(usize);

impl View for ID {
    type V = usize;

    closed spec fn view(&self) -> usize {
        self.0
    }
}

impl ID {
    /// The id `id`.
    pub fn new(id: usize) -> (made: ID)
        ensures
            made@ == id,
    {
        ID(id)
    }

    /// The id.
    pub fn id(&self) -> (id: &usize)
        ensures
            *id == self@,
    {
        &self.0
    }
}

/// What one more of a power costs.
#[derive(Clone, Copy, Debug)]
pub struct Cost(i64);

impl View for Cost {
    type V = int;

    closed spec fn view(&self) -> int {
        self.0 as int
    }
}

impl Cost {
    /// The cost `cost`.
    pub fn new(cost: i64) -> (made: Cost)
        ensures
            made@ == cost,
    {
        Cost(cost)
    }

    /// The cost.
    pub fn cost(&self) -> (cost: &i64)
        ensures
            *cost == self@,
    {
        &self.0
    }

    /// The number held, which is the cost.
    pub fn prod_amt(&self) -> (amount: &i64)
        ensures
            *amount == self@,
    {
        &self.0
    }
}

/// What a power yields each time it produces.
#[derive(Clone, Copy, Debug)]
pub struct ProdAmount(i64);

impl View for ProdAmount {
    type V = int;

    closed spec fn view(&self) -> int {
        self.0 as int
    }
}

impl ProdAmount {
    /// The yield `amount`.
    pub fn new(amount: i64) -> (made: ProdAmount)
        ensures
            made@ == amount,
    {
        ProdAmount(amount)
    }

    /// The yield.
    pub fn amount(&self) -> (amount: &i64)
        ensures
            *amount == self@,
    {
        &self.0
    }
}

/// How fast a power produces. The rate is a double-precision number; it is
/// kept here as that number's 64 bits, which the rules never read.
#[derive(Clone, Copy, Debug)]
pub struct ProdRate(u64);

impl View for ProdRate {
    type V = u64;

    closed spec fn view(&self) -> u64 {
        self.0
    }
}

impl ProdRate {
    /// The rate with the bits `bits`.
    pub fn new(bits: u64) -> (made: ProdRate)
        ensures
            made@ == bits,
    {
        ProdRate(bits)
    }

    /// The bits of the rate.
    pub fn prod_rate(&self) -> (bits: &u64)
        ensures
            *bits == self@,
    {
        &self.0
    }
}

/// How many of a power can be owned.
#[derive(Clone, Copy, Debug)]
pub struct MaxOwned(i64);

impl View for MaxOwned {
    type V = int;

    closed spec fn view(&self) -> int {
        self.0 as int
    }
}

impl MaxOwned {
    /// The limit `count`.
    pub fn new(count: i64) -> (made: MaxOwned)
        ensures
            made@ == count,
    {
        MaxOwned(count)
    }

    /// The limit.
    pub fn max_owned(&self) -> (count: &i64)
        ensures
            *count == self@,
    {
        &self.0
    }
}

/// How many of a power are owned.
#[derive(Clone, Copy, Debug)]
pub struct CurrentOwned(i64);

impl View for CurrentOwned {
    type V = int;

    closed spec fn view(&self) -> int {
        self.0 as int
    }
}

impl CurrentOwned {
    /// The count `count`.
    pub fn new(count: i64) -> (made: CurrentOwned)
        ensures
            made@ == count,
    {
        CurrentOwned(count)
    }

    /// The count.
    pub fn current_owned(&self) -> (count: &i64)
        ensures
            *count == self@,
    {
        &self.0
    }
}

/// The amount of currency at which a power unlocks.
#[derive(Clone, Copy, Debug)]
pub struct UnlockBound(i64);

impl View for UnlockBound {
    type V = int;

    closed spec fn view(&self) -> int {
        self.0 as int
    }
}

impl UnlockBound {
    /// The bound `bound`.
    pub fn new(bound: i64) -> (made: UnlockBound)
        ensures
            made@ == bound,
    {
        UnlockBound(bound)
    }

    /// The bound.
    pub fn unlock_bound(&self) -> (bound: &i64)
        ensures
            *bound == self@,
    {
        &self.0
    }
}

} // verus!
