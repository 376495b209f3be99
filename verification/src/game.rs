//! The play screen: the currency counter, the unlock flags, and the routine
//! that gives each unlocked power its one display.

use vstd::prelude::*;
use crate::table::{
    is_listing, table_entries, table_get_key_value, table_insert, table_iter, table_len,
    table_new, FlagTable,
};
use crate::ui::{presses, Interaction};
use crate::{Cost, CurrentOwned, MaxOwned, PauseState, ProdAmount, ProdRate, Title, ID};

verus! {

/// For each power id, whether the power is unlocked. An id without an entry
/// counts as locked.
pub struct PowerUnlockFlags {
    table: FlagTable,
}

impl View for PowerUnlockFlags {
    type V = Map<usize, bool>;

    closed spec fn view(&self) -> Map<usize, bool> {
        table_entries(self.table)
    }
}

/// Whether `flags` unlocks the power `id`: it has an entry, and the entry is
/// `true`.
pub open spec fn unlocked(flags: Map<usize, bool>, id: usize) -> bool {
    flags.dom().contains(id) && flags[id]
}

/// The map that a list of entries describes: each id maps to the flag of its
/// last entry.
pub open spec fn entries_map(entries: Seq<(usize, bool)>) -> Map<usize, bool>
    decreases entries.len(),
{
    if entries.len() == 0 {
        Map::empty()
    } else {
        entries_map(entries.drop_last()).insert(entries.last().0, entries.last().1)
    }
}

impl PowerUnlockFlags {
    /// A table without entries: every power is locked.
    pub fn new() -> (flags: PowerUnlockFlags)
        ensures
            flags@ =~= Map::empty(),
    {
        PowerUnlockFlags { table: table_new() }
    }

    /// Sets the flag of `id`, and returns the flag it had.
    pub fn insert(&mut self, id: usize, flag: bool) -> (prev: Option<bool>)
        ensures
            final(self)@ == old(self)@.insert(id, flag),
            prev == (if old(self)@.dom().contains(id) {
                Some(old(self)@[id])
            } else {
                None
            }),
    {
        table_insert(&mut self.table, id, flag)
    }

    /// The number of entries.
    pub fn len(&self) -> (count: usize)
        ensures
            count == self@.len(),
    {
        table_len(&self.table)
    }

    /// The entry of `id`, or `None` where there is none.
    pub fn get(&self, id: usize) -> (flag: Option<bool>)
        ensures
            flag == (if self@.dom().contains(id) {
                Some(self@[id])
            } else {
                None
            }),
    {
        match table_get_key_value(&self.table, id) {
            Some((_, flag)) => Some(flag),
            None => None,
        }
    }

    /// Whether the power `id` is unlocked.
    pub fn is_unlocked(&self, id: usize) -> (yes: bool)
        ensures
            yes == unlocked(self@, id),
    {
        match table_get_key_value(&self.table, id) {
            Some((_, flag)) => flag,
            None => false,
        }
    }

    /// The table that holds the given entries. Where an id occurs twice, its
    /// last entry counts.
    pub fn from_entries(entries: &Vec<(usize, bool)>) -> (flags: PowerUnlockFlags)
        ensures
            flags@ == entries_map(entries@),
    {
        let mut flags = PowerUnlockFlags::new();
        let mut i: usize = 0;
        while i < entries.len()
            invariant
                i <= entries.len(),
                flags@ == entries_map(entries@.take(i as int)),
            decreases entries.len() - i,
        {
            let (id, flag) = entries[i];
            flags.insert(id, flag);
            proof {
                assert(entries@.take(i + 1).drop_last() == entries@.take(i as int));
            }
            i += 1;
        }
        proof {
            assert(entries@.take(i as int) == entries@);
        }
        flags
    }

    /// Every entry once, in no particular order. Handed to
    /// [`PowerUnlockFlags::from_entries`], the list gives this table again.
    pub fn entries(&self) -> (entries: Vec<(usize, bool)>)
        ensures
            is_listing(entries@, self@),
            entries_map(entries@) == self@,
    {
        let entries = table_iter(&self.table);
        proof {
            lemma_listing_round_trip(entries@, self@);
        }
        entries
    }
}

/// A table that is written out as a list and read back from the list is the
/// table that it was, whatever the order of the list.
pub proof fn lemma_listing_round_trip(entries: Seq<(usize, bool)>, table: Map<usize, bool>)
    requires
        is_listing(entries, table),
    ensures
        entries_map(entries) == table,
{
    lemma_entries_map(entries);
    assert(entries_map(entries) =~= table);
}

/// In a list without a repeated id, the described map holds exactly the
/// list's entries.
pub proof fn lemma_entries_map(entries: Seq<(usize, bool)>)
    requires
        forall|i: int, j: int|
            0 <= i < j < entries.len() ==> (#[trigger] entries[i]).0 != (#[trigger] entries[j]).0,
    ensures
        forall|i: int|
            0 <= i < entries.len() ==> entries_map(entries).contains_pair(
                (#[trigger] entries[i]).0,
                entries[i].1,
            ),
        forall|id: usize| #[trigger]
            entries_map(entries).dom().contains(id) ==> exists|i: int|
                0 <= i < entries.len() && (#[trigger] entries[i]).0 == id,
    decreases entries.len(),
{
    if entries.len() > 0 {
        let init = entries.drop_last();
        lemma_entries_map(init);
        assert forall|i: int| 0 <= i < entries.len() implies entries_map(entries).contains_pair(
            (#[trigger] entries[i]).0,
            entries[i].1,
        ) by {
            if i < entries.len() - 1 {
                assert(entries[i] == init[i]);
                assert(init[i].0 != entries.last().0);
            }
        }
        assert forall|id: usize| #[trigger]
            entries_map(entries).dom().contains(id) implies exists|i: int|
            0 <= i < entries.len() && (#[trigger] entries[i]).0 == id by {
            if id == entries.last().0 {
                assert(entries[entries.len() - 1].0 == id);
            } else {
                assert(entries_map(init).dom().contains(id));
                let i = choose|i: int| 0 <= i < init.len() && (#[trigger] init[i]).0 == id;
                assert(entries[i].0 == id);
            }
        }
    }
}

/// A request to give the power with this id its display.
#[derive(Clone, Copy, PartialEq, Eq, Structural, Debug)]
pub struct SpawnPowerButton(pub usize);

/// What became of a spawn request.
#[derive(Clone, Copy, PartialEq, Eq, Structural, Debug)]
pub enum SpawnOutcome {
    /// The power got its display.
    Spawned,
    /// The flag table has no entry for the id.
    NoSuchFlag,
    /// The power is locked.
    NotUnlocked,
    /// The power has a display already.
    AlreadySpawned,
    /// The node that holds the displays does not exist.
    NoParentNode,
}

/// The visuals of the play screen, as far as the rules read them.
pub struct GameScreen {
    parent_node: bool,
    pause_overlay: bool,
    displays: Vec<usize>,
}

/// What a [`GameScreen`] holds.
pub struct GameScreenView {
    /// Whether the node that holds the power displays exists.
    pub parent_node: bool,
    /// Whether the pause overlay is up.
    pub pause_overlay: bool,
    /// The ids of the powers that have a display, in the order in which they
    /// got it.
    pub displays: Seq<usize>,
}

impl View for GameScreen {
    type V = GameScreenView;

    closed spec fn view(&self) -> GameScreenView {
        GameScreenView {
            parent_node: self.parent_node,
            pause_overlay: self.pause_overlay,
            displays: self.displays@,
        }
    }
}

/// The spawn requests that entering the play screen sends, looking at the ids
/// below `bound` only: those that are unlocked, in increasing order.
pub open spec fn spawn_requests(flags: Map<usize, bool>, bound: nat) -> Seq<SpawnPowerButton>
    decreases bound,
{
    if bound == 0 {
        Seq::empty()
    } else {
        let id = (bound - 1) as usize;
        if unlocked(flags, id) {
            spawn_requests(flags, (bound - 1) as nat).push(SpawnPowerButton(id))
        } else {
            spawn_requests(flags, (bound - 1) as nat)
        }
    }
}

/// What a spawn request for `id` comes to on `screen`. The tests are made in
/// this order: is there a flag, is it set, is there a display already, is
/// there a node to hold a new one.
pub open spec fn spawn_outcome(
    flags: Map<usize, bool>,
    screen: GameScreenView,
    id: usize,
) -> SpawnOutcome {
    if !flags.dom().contains(id) {
        SpawnOutcome::NoSuchFlag
    } else if !flags[id] {
        SpawnOutcome::NotUnlocked
    } else if screen.displays.contains(id) {
        SpawnOutcome::AlreadySpawned
    } else if !screen.parent_node {
        SpawnOutcome::NoParentNode
    } else {
        SpawnOutcome::Spawned
    }
}

/// The screen after a spawn request for `id`: with one more display where the
/// request succeeds, and unchanged where it does not.
pub open spec fn spawn_step(
    flags: Map<usize, bool>,
    screen: GameScreenView,
    id: usize,
) -> GameScreenView {
    if spawn_outcome(flags, screen, id) == SpawnOutcome::Spawned {
        GameScreenView { displays: screen.displays.push(id), ..screen }
    } else {
        screen
    }
}

/// The screen after the requests `events`, taken first to last.
pub open spec fn spawn_all(
    flags: Map<usize, bool>,
    screen: GameScreenView,
    events: Seq<SpawnPowerButton>,
) -> GameScreenView
    decreases events.len(),
{
    if events.len() == 0 {
        screen
    } else {
        spawn_step(flags, spawn_all(flags, screen, events.drop_last()), events.last().0)
    }
}

impl GameScreen {
    /// The screen before play was entered: nothing is shown.
    pub fn new() -> (screen: GameScreen)
        ensures
            !screen@.parent_node,
            !screen@.pause_overlay,
            screen@.displays =~= Seq::empty(),
    {
        GameScreen { parent_node: false, pause_overlay: false, displays: Vec::new() }
    }

    /// Whether the node that holds the power displays exists.
    pub fn has_parent_node(&self) -> (yes: bool)
        ensures
            yes == self@.parent_node,
    {
        self.parent_node
    }

    /// Whether the pause overlay is up.
    pub fn has_pause_overlay(&self) -> (yes: bool)
        ensures
            yes == self@.pause_overlay,
    {
        self.pause_overlay
    }

    /// The ids of the powers that have a display, oldest display first.
    pub fn displays(&self) -> (ids: &Vec<usize>)
        ensures
            ids@ == self@.displays,
    {
        &self.displays
    }

    /// Whether the power `id` has a display.
    pub fn is_spawned(&self, id: usize) -> (yes: bool)
        ensures
            yes == self@.displays.contains(id),
    {
        let mut i: usize = 0;
        while i < self.displays.len()
            invariant
                i <= self.displays@.len(),
                forall|j: int| 0 <= j < i ==> self.displays@[j] != id,
            decreases self.displays@.len() - i,
        {
            if self.displays[i] == id {
                return true;
            }
            i += 1;
        }
        false
    }
}

/// Entering the play screen: puts up the node that holds the power displays
/// and returns one spawn request for each unlocked id below the number of
/// flags, in increasing order. An unlocked id at or above that number gets no
/// request.
pub fn startup(screen: &mut GameScreen, flags: &PowerUnlockFlags) -> (requests: Vec<
    SpawnPowerButton,
>)
    ensures
        final(screen)@ == (GameScreenView { parent_node: true, ..old(screen)@ }),
        requests@ == spawn_requests(flags@, flags@.len()),
        forall|id: usize| #[trigger]
            requests@.contains(SpawnPowerButton(id)) <==> id < flags@.len() && unlocked(
                flags@,
                id,
            ),
        forall|i: int, j: int|
            0 <= i < j < requests@.len() ==> (#[trigger] requests@[i]).0 < (
            #[trigger] requests@[j]).0,
{
    screen.parent_node = true;
    let count = flags.len();
    let mut requests: Vec<SpawnPowerButton> = Vec::new();
    let mut i: usize = 0;
    while i < count
        invariant
            i <= count,
            requests@ == spawn_requests(flags@, i as nat),
        decreases count - i,
    {
        if flags.is_unlocked(i) {
            requests.push(SpawnPowerButton(i));
        }
        i += 1;
    }
    proof {
        lemma_spawn_requests(flags@, count as nat);
    }
    requests
}

/// Leaving the play screen: what belongs to it goes, the node that holds the
/// displays and every display with it, so no power has a display any more.
/// The pause overlay is not the play screen's: it stays as it is, and comes
/// down by [`pause_cleanup`].
pub fn cleanup(screen: &mut GameScreen)
    ensures
        final(screen)@ == (GameScreenView {
            parent_node: false,
            displays: Seq::empty(),
            ..old(screen)@
        }),
{
    screen.parent_node = false;
    screen.displays = Vec::new();
}

/// Entering the pause: the overlay goes up.
pub fn pause_startup(screen: &mut GameScreen)
    ensures
        final(screen)@ == (GameScreenView { pause_overlay: true, ..old(screen)@ }),
{
    screen.pause_overlay = true;
}

/// Leaving the pause: the overlay comes down.
pub fn pause_cleanup(screen: &mut GameScreen)
    ensures
        final(screen)@ == (GameScreenView { pause_overlay: false, ..old(screen)@ }),
{
    screen.pause_overlay = false;
}

/// Handles one spawn request: the power gets a display if it is unlocked, has
/// none yet, and the node to hold it exists. Otherwise nothing changes, and
/// the outcome says why.
pub fn spawn_power_button(
    screen: &mut GameScreen,
    flags: &PowerUnlockFlags,
    event: SpawnPowerButton,
) -> (outcome: SpawnOutcome)
    ensures
        outcome == spawn_outcome(flags@, old(screen)@, event.0),
        final(screen)@ == spawn_step(flags@, old(screen)@, event.0),
        !unlocked(flags@, event.0) ==> outcome != SpawnOutcome::Spawned
            && final(screen)@ == old(screen)@,
        old(screen)@.displays.contains(event.0) ==> outcome != SpawnOutcome::Spawned
            && final(screen)@ == old(screen)@,
        old(screen)@.displays.no_duplicates() ==> final(screen)@.displays.no_duplicates(),
{
    match flags.get(event.0) {
        None => SpawnOutcome::NoSuchFlag,
        Some(false) => SpawnOutcome::NotUnlocked,
        Some(true) => {
            if screen.is_spawned(event.0) {
                SpawnOutcome::AlreadySpawned
            } else if !screen.parent_node {
                SpawnOutcome::NoParentNode
            } else {
                screen.displays.push(event.0);
                proof {
                    if old(screen)@.displays.no_duplicates() {
                        lemma_push_distinct(old(screen)@.displays, event.0);
                    }
                }
                SpawnOutcome::Spawned
            }
        },
    }
}

/// Handles the spawn requests of a frame, first to last, and returns the
/// outcome of each. A request is judged against the displays that the
/// requests before it have left, so of two requests for one id the second
/// finds the display of the first.
pub fn evr_spawn_power_button(
    screen: &mut GameScreen,
    flags: &PowerUnlockFlags,
    events: &Vec<SpawnPowerButton>,
) -> (outcomes: Vec<SpawnOutcome>)
    ensures
        final(screen)@ == spawn_all(flags@, old(screen)@, events@),
        outcomes@.len() == events@.len(),
        forall|i: int|
            0 <= i < events@.len() ==> #[trigger] outcomes@[i] == spawn_outcome(
                flags@,
                spawn_all(flags@, old(screen)@, events@.take(i)),
                events@[i].0,
            ),
        old(screen)@.displays.no_duplicates() ==> final(screen)@.displays.no_duplicates(),
        forall|id: usize|
            !unlocked(flags@, id) ==> (#[trigger] final(screen)@.displays.contains(id)
                <==> old(screen)@.displays.contains(id)),
{
    let mut outcomes: Vec<SpawnOutcome> = Vec::new();
    let mut i: usize = 0;
    while i < events.len()
        invariant
            i <= events@.len(),
            screen@ == spawn_all(flags@, old(screen)@, events@.take(i as int)),
            old(screen)@.displays.no_duplicates() ==> screen@.displays.no_duplicates(),
            outcomes@.len() == i,
            forall|j: int|
                0 <= j < i ==> #[trigger] outcomes@[j] == spawn_outcome(
                    flags@,
                    spawn_all(flags@, old(screen)@, events@.take(j)),
                    events@[j].0,
                ),
        decreases events@.len() - i,
    {
        proof {
            assert(events@.take(i + 1).drop_last() == events@.take(i as int));
        }
        let outcome = spawn_power_button(screen, flags, events[i]);
        outcomes.push(outcome);
        i += 1;
    }
    proof {
        assert(events@.take(i as int) == events@);
        lemma_spawn_all_displays(flags@, old(screen)@, events@);
    }
    outcomes
}

/// A list without a repeated item stays so when an item that it lacks is
/// added.
pub proof fn lemma_push_distinct(ids: Seq<usize>, id: usize)
    requires
        ids.no_duplicates(),
        !ids.contains(id),
    ensures
        ids.push(id).no_duplicates(),
{
    assert forall|i: int, j: int|
        0 <= i < ids.push(id).len() && 0 <= j < ids.push(id).len() && i != j implies ids.push(
        id,
    )[i] != ids.push(id)[j] by {
        if i < ids.len() {
            assert(ids.contains(ids[i]));
        }
        if j < ids.len() {
            assert(ids.contains(ids[j]));
        }
    }
}

/// Spawn requests change nothing but the displays, and the displays only by
/// adding: a power has a display afterwards exactly if it had one before, or
/// it is unlocked, was requested, and the node to hold displays exists.
pub proof fn lemma_spawn_all_displays(
    flags: Map<usize, bool>,
    screen: GameScreenView,
    events: Seq<SpawnPowerButton>,
)
    ensures
        spawn_all(flags, screen, events).parent_node == screen.parent_node,
        spawn_all(flags, screen, events).pause_overlay == screen.pause_overlay,
        forall|id: usize| #[trigger]
            spawn_all(flags, screen, events).displays.contains(id) <==> screen.displays.contains(
                id,
            ) || (unlocked(flags, id) && screen.parent_node && events.contains(
                SpawnPowerButton(id),
            )),
    decreases events.len(),
{
    let after = spawn_all(flags, screen, events);
    if events.len() == 0 {
        assert forall|id: usize| !events.contains(SpawnPowerButton(id)) by {}
    } else {
        let init = events.drop_last();
        let last = events.last();
        let mid = spawn_all(flags, screen, init);
        lemma_spawn_all_displays(flags, screen, init);
        assert forall|id: usize| #[trigger]
            after.displays.contains(id) <==> screen.displays.contains(id) || (unlocked(flags, id)
                && screen.parent_node && events.contains(SpawnPowerButton(id))) by {
            assert(events.contains(SpawnPowerButton(id)) <==> init.contains(SpawnPowerButton(id))
                || last == SpawnPowerButton(id)) by {
                if init.contains(SpawnPowerButton(id)) {
                    let k = choose|k: int| 0 <= k < init.len() && init[k] == SpawnPowerButton(id);
                    assert(events[k] == SpawnPowerButton(id));
                }
                if last == SpawnPowerButton(id) {
                    assert(events[events.len() - 1] == SpawnPowerButton(id));
                }
                if events.contains(SpawnPowerButton(id)) {
                    let k = choose|k: int|
                        0 <= k < events.len() && events[k] == SpawnPowerButton(id);
                    if k < init.len() {
                        assert(init[k] == SpawnPowerButton(id));
                    }
                }
            }
            if spawn_outcome(flags, mid, last.0) == SpawnOutcome::Spawned {
                assert(after.displays == mid.displays.push(last.0));
                assert(after.displays.contains(id) <==> mid.displays.contains(id) || id == last.0)
                    by {
                    if mid.displays.contains(id) {
                        let k = choose|k: int| 0 <= k < mid.displays.len() && mid.displays[k] == id;
                        assert(after.displays[k] == id);
                    }
                    if id == last.0 {
                        assert(after.displays[after.displays.len() - 1] == id);
                    }
                }
            }
        }
    }
}

/// A spawn request is sent exactly for the unlocked ids below the bound, and
/// the requests come in increasing order of id, so none comes twice.
pub proof fn lemma_spawn_requests(flags: Map<usize, bool>, bound: nat)
    requires
        bound <= usize::MAX,
    ensures
        forall|id: usize| #[trigger]
            spawn_requests(flags, bound).contains(SpawnPowerButton(id)) <==> id < bound
                && unlocked(flags, id),
        forall|i: int, j: int|
            0 <= i < j < spawn_requests(flags, bound).len() ==> (#[trigger] spawn_requests(
                flags,
                bound,
            )[i]).0 < (#[trigger] spawn_requests(flags, bound)[j]).0,
        forall|i: int|
            0 <= i < spawn_requests(flags, bound).len() ==> (#[trigger] spawn_requests(
                flags,
                bound,
            )[i]).0 < bound,
    decreases bound,
{
    let all = spawn_requests(flags, bound);
    if bound == 0 {
        assert forall|id: usize| !all.contains(SpawnPowerButton(id)) by {}
    } else {
        let rest = spawn_requests(flags, (bound - 1) as nat);
        let top = (bound - 1) as usize;
        lemma_spawn_requests(flags, (bound - 1) as nat);
        assert forall|id: usize| #[trigger]
            all.contains(SpawnPowerButton(id)) <==> id < bound && unlocked(flags, id) by {
            if rest.contains(SpawnPowerButton(id)) {
                let k = choose|k: int| 0 <= k < rest.len() && rest[k] == SpawnPowerButton(id);
                assert(all[k] == SpawnPowerButton(id));
            }
            if unlocked(flags, top) && id == top {
                assert(all[all.len() - 1] == SpawnPowerButton(id));
            }
            if all.contains(SpawnPowerButton(id)) {
                let k = choose|k: int| 0 <= k < all.len() && all[k] == SpawnPowerButton(id);
                if k < rest.len() {
                    assert(rest[k] == SpawnPowerButton(id));
                }
            }
        }
    }
}

/// The currency earned so far, with a mark that says whether it changed
/// since the text that shows it was last written.
#[derive(Debug)]
pub struct TotalPower {
    power: i64,
    changed: bool,
}

impl TotalPower {
    /// The amount.
    pub closed spec fn amount(&self) -> int {
        self.power as int
    }

    /// Whether the amount is newer than the text that shows it.
    pub closed spec fn is_changed(&self) -> bool {
        self.changed
    }

    /// A counter that stands at `power`. It counts as changed, so that the
    /// text is written once at the start.
    pub fn new(power: i64) -> (total: TotalPower)
        ensures
            total.amount() == power,
            total.is_changed(),
    {
        TotalPower { power, changed: true }
    }

    /// Adds `i` to the amount and marks it as changed. Nothing is ever taken
    /// off: `i` is not negative.
    pub fn add_power(&mut self, i: i64)
        requires
            0 <= i,
            old(self).amount() + i <= i64::MAX,
        ensures
            final(self).amount() == old(self).amount() + i,
            final(self).amount() >= old(self).amount(),
            final(self).is_changed(),
    {
        self.power = self.power + i;
        self.changed = true;
    }

    /// The amount.
    pub fn power(&self) -> (power: i64)
        ensures
            power == self.amount(),
    {
        self.power
    }
}

impl Default for TotalPower {
    fn default() -> (total: TotalPower)
        ensures
            total.amount() == 0,
            total.is_changed(),
    {
        TotalPower { power: 0, changed: true }
    }
}

/// The click surface: each press among `interactions` earns one unit.
pub fn screen_click(total_power: &mut TotalPower, interactions: &Vec<Interaction>)
    requires
        old(total_power).amount() + presses(interactions@) <= i64::MAX,
    ensures
        final(total_power).amount() == old(total_power).amount() + presses(interactions@),
        final(total_power).amount() >= old(total_power).amount(),
        final(total_power).is_changed() == (old(total_power).is_changed() || presses(
            interactions@,
        ) > 0),
{
    let mut i: usize = 0;
    while i < interactions.len()
        invariant
            i <= interactions@.len(),
            old(total_power).amount() + presses(interactions@) <= i64::MAX,
            total_power.amount() == old(total_power).amount() + presses(
                interactions@.take(i as int),
            ),
            total_power.is_changed() == (old(total_power).is_changed() || presses(
                interactions@.take(i as int),
            ) > 0),
        decreases interactions@.len() - i,
    {
        proof {
            assert(interactions@.take(i + 1).drop_last() == interactions@.take(i as int));
            lemma_presses_prefix(interactions@, i + 1);
        }
        if interactions[i] == Interaction::Pressed {
            total_power.add_power(1);
        }
        i += 1;
    }
    proof {
        assert(interactions@.take(i as int) == interactions@);
    }
}

/// A prefix holds no more presses than the whole list.
pub proof fn lemma_presses_prefix(interactions: Seq<Interaction>, n: int)
    requires
        0 <= n <= interactions.len(),
    ensures
        presses(interactions.take(n)) <= presses(interactions),
    decreases interactions.len() - n,
{
    if n < interactions.len() {
        lemma_presses_prefix(interactions, n + 1);
        assert(interactions.take(n + 1).drop_last() == interactions.take(n));
    } else {
        assert(interactions.take(n) == interactions);
    }
}

/// The pause state that the pause button asks for after the interactions of
/// a frame: the other state where the button was pressed, none where it was
/// not. Several presses in one frame ask for the same state, since the state
/// in force changes only between frames.
pub open spec fn pause_request(pause_state: PauseState, interactions: Seq<Interaction>) -> Option<
    PauseState,
> {
    if presses(interactions) > 0 {
        Some(pause_state.flipped())
    } else {
        None
    }
}

/// Reads the pause button's interactions of a frame, and returns the pause
/// state to go to, if any.
pub fn pause_click(pause_state: PauseState, interactions: &Vec<Interaction>) -> (next: Option<
    PauseState,
>)
    ensures
        next == pause_request(pause_state, interactions@),
{
    let mut next: Option<PauseState> = None;
    let mut i: usize = 0;
    while i < interactions.len()
        invariant
            i <= interactions@.len(),
            next == pause_request(pause_state, interactions@.take(i as int)),
        decreases interactions@.len() - i,
    {
        proof {
            assert(interactions@.take(i + 1).drop_last() == interactions@.take(i as int));
        }
        if interactions[i] == Interaction::Pressed {
            next = Some(
                match pause_state {
                    PauseState::Paused => PauseState::Unpaused,
                    PauseState::Unpaused => PauseState::Paused,
                },
            );
        }
        i += 1;
    }
    proof {
        assert(interactions@.take(i as int) == interactions@);
    }
    next
}

/// The character of a decimal digit.
pub open spec fn digit_char(digit: nat) -> char {
    if digit == 0 {
        '0'
    } else if digit == 1 {
        '1'
    } else if digit == 2 {
        '2'
    } else if digit == 3 {
        '3'
    } else if digit == 4 {
        '4'
    } else if digit == 5 {
        '5'
    } else if digit == 6 {
        '6'
    } else if digit == 7 {
        '7'
    } else if digit == 8 {
        '8'
    } else {
        '9'
    }
}

/// The decimal digits of `n`, without leading zeros.
pub open spec fn digits(n: nat) -> Seq<char>
    decreases n,
{
    if n < 10 {
        seq![digit_char(n)]
    } else {
        digits(n / 10).push(digit_char(n % 10))
    }
}

/// `n` in decimal, with a minus sign in front where it is negative.
pub open spec fn decimal(n: int) -> Seq<char> {
    if n < 0 {
        seq!['-'] + digits((-n) as nat)
    } else {
        digits(n as nat)
    }
}

/// `i64`'s `Display`, as `format!` applies it: the number in decimal, with a
/// minus sign where it is negative. Not proved.
#[verifier::external_body]
fn format_power(power: i64) -> (text: String)
    ensures
        text@ == decimal(power as int),
{
    format!("{}", power)
}

/// The text that shows the currency: where the amount changed since the text
/// was last written, the new text, and the mark is taken off; else `None`,
/// and the text stays.
pub fn update_power_text(total_power: &mut TotalPower) -> (text: Option<String>)
    ensures
        final(total_power).amount() == old(total_power).amount(),
        !final(total_power).is_changed(),
        text.is_some() == old(total_power).is_changed(),
        text.is_some() ==> text.unwrap()@ == decimal(old(total_power).amount()),
{
    if total_power.changed {
        total_power.changed = false;
        Some(format_power(total_power.power))
    } else {
        None
    }
}

/// A purchasable power: what the catalog says of it, and how many are owned.
#[derive(Debug)]
pub struct Power {
    pub title: Title,
    pub id: ID,
    pub cost: Cost,
    pub production_amount: ProdAmount,
    pub production_rate: ProdRate,
    pub max_owned: MaxOwned,
    pub current_owned: CurrentOwned,
}

/// What a [`Power`] holds.
pub struct PowerView {
    pub title: Seq<char>,
    pub id: usize,
    pub cost: int,
    pub production_amount: int,
    pub production_rate: u64,
    pub max_owned: int,
    pub current_owned: int,
}

impl View for Power {
    type V = PowerView;

    open spec fn view(&self) -> PowerView {
        PowerView {
            title: self.title@,
            id: self.id@,
            cost: self.cost@,
            production_amount: self.production_amount@,
            production_rate: self.production_rate@,
            max_owned: self.max_owned@,
            current_owned: self.current_owned@,
        }
    }
}

/// Whether a power may stand at place `index` of the catalog: its id is its
/// place, and the number owned lies between zero and the limit.
pub open spec fn power_fits(power: PowerView, index: int) -> bool {
    power.id == index && 0 <= power.current_owned <= power.max_owned
}

/// Whether a list of powers is a catalog: each power fits its place.
pub open spec fn is_catalog(powers: Seq<PowerView>) -> bool {
    forall|i: int| 0 <= i < powers.len() ==> power_fits(#[trigger] powers[i], i)
}

/// The views of a list of powers.
pub open spec fn power_views(powers: Seq<Power>) -> Seq<PowerView> {
    powers.map_values(|power: Power| power@)
}

/// The catalog of powers: at place `i` stands the power with id `i`, and no
/// power is owned more often than its limit allows.
#[derive(Debug)]
pub struct Powers {
    powers: Vec<Power>,
}

impl View for Powers {
    type V = Seq<PowerView>;

    closed spec fn view(&self) -> Seq<PowerView> {
        power_views(self.powers@)
    }
}

impl Powers {
    #[verifier::type_invariant]
    spec fn fits(self) -> bool {
        is_catalog(power_views(self.powers@))
    }

    /// The catalog that holds `powers`, where they make one; else `None`.
    pub fn new(powers: Vec<Power>) -> (catalog: Option<Powers>)
        ensures
            catalog.is_some() == is_catalog(power_views(powers@)),
            catalog.is_some() ==> catalog.unwrap()@ == power_views(powers@),
    {
        let mut i: usize = 0;
        while i < powers.len()
            invariant
                i <= powers@.len(),
                forall|j: int| 0 <= j < i ==> power_fits(#[trigger] power_views(powers@)[j], j),
            decreases powers@.len() - i,
        {
            let power = &powers[i];
            let owned: i64 = *power.current_owned.current_owned();
            if *power.id.id() != i || owned < 0 || owned > *power.max_owned.max_owned() {
                proof {
                    assert(!power_fits(power_views(powers@)[i as int], i as int));
                }
                return None;
            }
            i += 1;
        }
        Some(Powers { powers })
    }

    /// The number of powers.
    pub fn len(&self) -> (count: usize)
        ensures
            count == self@.len(),
    {
        self.powers.len()
    }

    /// The power with id `id`.
    pub fn get(&self, id: usize) -> (power: Option<&Power>)
        ensures
            power.is_some() == (id < self@.len()),
            power.is_some() ==> power.unwrap()@ == self@[id as int] && power_fits(
                power.unwrap()@,
                id as int,
            ),
    {
        proof {
            use_type_invariant(self);
        }
        if id < self.powers.len() {
            Some(&self.powers[id])
        } else {
            None
        }
    }

    /// The powers, in the order of their ids.
    pub fn powers(&self) -> (powers: &Vec<Power>)
        ensures
            power_views(powers@) == self@,
            is_catalog(self@),
    {
        proof {
            use_type_invariant(self);
        }
        &self.powers
    }
}

/// Two frames with a press of the pause button each, the request of the
/// first carried out before the second, leave the pause state as it was.
pub proof fn lemma_pause_toggle_twice(
    pause: PauseState,
    first: Seq<Interaction>,
    second: Seq<Interaction>,
)
    requires
        presses(first) > 0,
        presses(second) > 0,
    ensures
        pause_request(pause_request(pause, first).unwrap(), second) == Some(pause),
{
}

/// However many spawn requests come, no power has two displays afterwards,
/// provided that none had two before.
pub proof fn lemma_spawn_all_distinct(
    flags: Map<usize, bool>,
    screen: GameScreenView,
    events: Seq<SpawnPowerButton>,
)
    requires
        screen.displays.no_duplicates(),
    ensures
        spawn_all(flags, screen, events).displays.no_duplicates(),
    decreases events.len(),
{
    if events.len() > 0 {
        let mid = spawn_all(flags, screen, events.drop_last());
        lemma_spawn_all_distinct(flags, screen, events.drop_last());
        if spawn_outcome(flags, mid, events.last().0) == SpawnOutcome::Spawned {
            lemma_push_distinct(mid.displays, events.last().0);
        }
    }
}

/// A power that is locked, or has no flag, and has no display gets none,
/// whatever spawn requests come.
pub proof fn lemma_locked_never_spawned(
    flags: Map<usize, bool>,
    screen: GameScreenView,
    events: Seq<SpawnPowerButton>,
    id: usize,
)
    requires
        !unlocked(flags, id),
        !screen.displays.contains(id),
    ensures
        !spawn_all(flags, screen, events).displays.contains(id),
{
    lemma_spawn_all_displays(flags, screen, events);
}

} // verus!
