//! The resolved identity of an authenticated request.

use vstd::prelude::*;

verus! {

/// The authenticated subject of one request. Immutable once built.
#[derive(Clone, Copy, Debug, PartialEq, Eq, Structural)]
pub struct Ctx {
    user_id: u64,
}

impl View for Ctx {
    type V = u64;

    closed spec fn view(&self) -> u64 {
        self.user_id
    }
}

impl Ctx {
    /// A context for the subject `user_id`.
    pub fn new(user_id: u64) -> (r: Ctx)
        ensures
            r@ == user_id,
    {
        Ctx { user_id }
    }

    /// The subject id.
    pub fn user_id(&self) -> (r: u64)
        ensures
            r == self@,
    {
        self.user_id
    }
}

} // verus!
