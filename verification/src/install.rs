//! Setting up the directory that the game runs from.

use vstd::prelude::*;

verus! {

/// What is to be done to the directory that the game runs from, before the
/// game looks for its assets and records there.
#[derive(Clone, Copy, PartialEq, Eq, Structural, Debug)]
pub struct InstallPlan {
    /// Make the directory `assets`.
    pub create_assets: bool,
    /// Make the directory `ron`.
    pub create_ron: bool,
    /// Copy the project's `assets` and `ron` trees into the two directories.
    pub copy_trees: bool,
}

/// Decides what to set up, given which of the two directories exist. A
/// directory that is missing is made. The trees are copied only together
/// with the making of `ron`, that is once: later runs find `ron` and leave
/// the saved records alone.
pub fn install_plan(assets_present: bool, ron_present: bool) -> (plan: InstallPlan)
    ensures
        plan == (InstallPlan {
            create_assets: !assets_present,
            create_ron: !ron_present,
            copy_trees: !ron_present,
        }),
{
    InstallPlan {
        create_assets: !assets_present,
        create_ron: !ron_present,
        copy_trees: !ron_present,
    }
}

} // verus!
