//! The record of what the host was told.
use vstd::prelude::*;

use super::client::Logged;

verus! {

/// The callbacks the host was handed, oldest first, each with the host's
/// answer. The record lives outside the room logic so that nothing there
/// can write it: it grows only through the host's callbacks, each of which
/// states that it appends itself (`Listener` and the resolver traits).
pub struct Hearing {
    calls: Ghost<Seq<Logged>>,
}

impl Hearing {
    pub closed spec fn calls(&self) -> Seq<Logged> {
        self.calls@
    }

    /// An empty record.
    pub fn new() -> (r: Hearing)
        ensures
            r.calls() == Seq::<Logged>::empty(),
    {
        Hearing { calls: Ghost(Seq::empty()) }
    }
}

} // verus!
