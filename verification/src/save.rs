//! Saving: which records are written when the application exits, where each
//! record's file lies, and what a failed load means at the start.

use vstd::prelude::*;
use vstd::string::StringExecFns;
use crate::AppState;

verus! {

/// The request to write the records to disk.
#[derive(Clone, Copy, PartialEq, Eq, Structural, Debug)]
pub struct Save;

/// The records that are kept on disk, each in a file of its own.
#[derive(Clone, Copy, PartialEq, Eq, Structural, Debug)]
pub enum Record {
    Settings,
    PowerUnlocks,
    TotalPower,
    Powers,
}

/// What to do at the start where a record cannot be loaded.
#[derive(Clone, Copy, PartialEq, Eq, Structural, Debug)]
pub enum LoadFailure {
    /// Give up the launch.
    Abort,
    /// Go on with the record's default value.
    UseDefault,
}

impl Record {
    /// The name of the record's file.
    pub open spec fn file(self) -> Seq<char> {
        match self {
            Record::Settings => "settings.ron"@,
            Record::PowerUnlocks => "power_unlocks.ron"@,
            Record::TotalPower => "total_power.ron"@,
            Record::Powers => "powers.ron"@,
        }
    }

    /// The name of the record's file.
    pub fn filename(&self) -> (name: &'static str)
        ensures
            name@ == self.file(),
    {
        match self {
            Record::Settings => "settings.ron",
            Record::PowerUnlocks => "power_unlocks.ron",
            Record::TotalPower => "total_power.ron",
            Record::Powers => "powers.ron",
        }
    }

    /// What a failed load of the record means at the start. It is the same
    /// for every record: the launch is given up, so that what was saved is
    /// never silently replaced by defaults.
    pub fn on_load_failure(&self) -> (policy: LoadFailure)
        ensures
            policy == LoadFailure::Abort,
    {
        LoadFailure::Abort
    }
}

/// The records in the order in which a save writes them.
pub open spec fn save_order() -> Seq<Record> {
    seq![Record::Settings, Record::PowerUnlocks, Record::TotalPower, Record::Powers]
}

/// The writes that `count` save requests ask for: for each request, every
/// record once, in the order of [`save_order`].
pub open spec fn save_writes(count: nat) -> Seq<Record>
    decreases count,
{
    if count == 0 {
        Seq::empty()
    } else {
        save_writes((count - 1) as nat) + save_order()
    }
}

/// What entering the exit screen asks for.
#[derive(Clone, Copy, PartialEq, Eq, Structural, Debug)]
pub struct ExitActions {
    /// The save request to send.
    pub save: Save,
    /// Whether the application is to end with success once the request is
    /// sent.
    pub exit: bool,
}

/// Entering a screen: on the exit screen, one save request is sent and the
/// application is told to end; on any other screen nothing is saved.
pub fn evw_save(entered: AppState) -> (actions: Option<ExitActions>)
    ensures
        actions == (if entered == AppState::Exit {
            Some(ExitActions { save: Save, exit: true })
        } else {
            None
        }),
{
    if entered == AppState::Exit {
        Some(ExitActions { save: Save, exit: true })
    } else {
        None
    }
}

/// Reads the save requests of a frame and returns the records to write, in
/// order. The list is fixed before any write is made: a write that fails
/// holds up neither the writes after it nor the end of the application.
pub fn evr_save(events: &Vec<Save>) -> (writes: Vec<Record>)
    ensures
        writes@ == save_writes(events@.len()),
        writes@.len() == 4 * events@.len(),
{
    let mut writes: Vec<Record> = Vec::new();
    let mut i: usize = 0;
    while i < events.len()
        invariant
            i <= events@.len(),
            writes@ == save_writes(i as nat),
            writes@.len() == 4 * i,
        decreases events@.len() - i,
    {
        writes.push(Record::Settings);
        writes.push(Record::PowerUnlocks);
        writes.push(Record::TotalPower);
        writes.push(Record::Powers);
        i += 1;
        proof {
            assert(writes@ =~= save_writes((i - 1) as nat) + save_order());
        }
    }
    writes
}

/// The path of a record's file: the directory `ron` below `root`, and in it
/// the file.
pub open spec fn record_path(root: Seq<char>, filename: Seq<char>) -> Seq<char> {
    root + "/ron/"@ + filename
}

/// The path of the file `filename` of a record, for an installation at
/// `root`.
pub fn format_path(root: &str, filename: &str) -> (path: String)
    ensures
        path@ == record_path(root@, filename@),
{
    let mut path = String::from_str(root);
    path.append("/ron/");
    path.append(filename);
    path
}

} // verus!
