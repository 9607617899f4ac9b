//! Only one copy of the program runs at a time.
use vstd::prelude::*;

verus! {

/// Holds the named mutex for the process lifetime; the system releases it on exit.
pub struct SingleInstance<H> {
    handle: H,
}

impl<H> SingleInstance<H> {
    /// The handle that is kept alive.
    pub closed spec fn held(&self) -> H {
        self.handle
    }
}

/// Decides from the outcome of creating the named mutex whether this process may
/// run: the mutex must have been created, and must not have existed before.
pub fn acquire<H>(created: Option<H>, already_exists: bool) -> (res: Option<SingleInstance<H>>)
    ensures
        res is Some <==> created is Some && !already_exists,
        res matches Some(guard) ==> Some(guard.held()) == created,
{
    match created {
        Some(handle) => if already_exists {
            None
        } else {
            Some(SingleInstance { handle })
        },
        None => None,
    }
}

} // verus!
