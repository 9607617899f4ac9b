//! Starting with the system.
use vstd::prelude::*;

verus! {

/// What happens to the entry of the program among those that start with the system.
#[derive(Clone, Copy, PartialEq, Eq, Structural, Debug)]
pub enum Entry {
    /// It is written anew, so that it follows the program if that moved.
    Write,
    Remove,
}

/// What to do with the entry at startup and when the setting changes.
pub fn sync(enabled: bool) -> (entry: Entry)
    ensures
        entry == (if enabled {
            Entry::Write
        } else {
            Entry::Remove
        }),
{
    if enabled {
        Entry::Write
    } else {
        Entry::Remove
    }
}

} // verus!
