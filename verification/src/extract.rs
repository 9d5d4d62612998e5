//! What to do with each entry of an update archive when extracting it over
//! the game's directory.
use vstd::prelude::*;

verus! {

/// The treatment of one archive entry.
#[derive(Debug, PartialEq, Eq, Structural, Clone, Copy)]
pub enum EntryPlan {
    /// The entry's name would leave the destination (absolute, or climbing
    /// above it with `..`); it is passed over.
    Skip,
    /// A directory entry: create the directory and any missing parents.
    CreateDirectory,
    /// A file entry: create its parent directories, then write the file.
    WriteFile,
}

/// The plan for an entry, given whether its name stays inside the
/// destination (the archive library's `enclosed_name` is present) and
/// whether it is a directory.
pub fn plan_entry(name_is_enclosed: bool, is_dir: bool) -> (p: EntryPlan)
    ensures
        !name_is_enclosed ==> p == EntryPlan::Skip,
        name_is_enclosed && is_dir ==> p == EntryPlan::CreateDirectory,
        name_is_enclosed && !is_dir ==> p == EntryPlan::WriteFile,
{
    if !name_is_enclosed {
        EntryPlan::Skip
    } else if is_dir {
        EntryPlan::CreateDirectory
    } else {
        EntryPlan::WriteFile
    }
}

} // verus!
