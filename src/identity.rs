//! Issuing identities to connections.

use vstd::prelude::*;

verus! {

/// The identity reserved for messages of the room itself; never issued to a
/// connection.
pub const SENTINEL_ID: u64 = 18446744073709551615;

/// What issuing from a counter at `next` gives: the identity issued, if any,
/// and the counter afterwards.
pub open spec fn issue_outcome(next: nat) -> (Option<u64>, nat) {
    if next < SENTINEL_ID {
        (Some(next as u64), next + 1)
    } else {
        (None, next)
    }
}

/// Issues identities 0, 1, 2, ... in order, each at most once.
pub struct IdentityAllocator {
    next: u64,
}

impl View for IdentityAllocator {
    /// The number of identities issued so far, which is also the next one.
    type V = nat;

    closed spec fn view(&self) -> nat {
        self.next as nat
    }
}

impl IdentityAllocator {
    /// An allocator that has issued nothing.
    pub fn new() -> (r: IdentityAllocator)
        ensures
            r@ == 0,
    {
        IdentityAllocator { next: 0 }
    }

    /// Issues the next identity; `None` once every identity below the
    /// sentinel has been issued.
    pub fn issue(&mut self) -> (r: Option<u64>)
        ensures
            (r, final(self)@) == issue_outcome(old(self)@),
    {
        if self.next < SENTINEL_ID {
            let id = self.next;
            self.next = self.next + 1;
            Some(id)
        } else {
            None
        }
    }

    /// The number of identities issued so far.
    pub fn issued(&self) -> (r: u64)
        ensures
            r == self@,
    {
        self.next
    }
}

} // verus!
