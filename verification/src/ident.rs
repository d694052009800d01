//! The source of tensor identities.

use vstd::prelude::*;

verus! {

/// Hands out identities, each one greater than all it handed out before.
/// Tensors that are built with one counter never share an identity.
#[derive(Debug)]
pub struct IdCounter {
    next: usize,
}

impl View for IdCounter {
    type V = nat;

    /// The identity that the counter hands out next.
    closed spec fn view(&self) -> nat {
        self.next as nat
    }
}

impl IdCounter {
    /// A counter whose first identity is 1.
    pub fn new() -> (c: Self)
        ensures
            c@ == 1,
    {
        IdCounter { next: 1 }
    }

    /// Whether the counter can hand out one more identity.
    pub open spec fn spec_has_next(&self) -> bool {
        self@ < usize::MAX
    }

    /// Whether the counter can hand out one more identity.
    #[verifier::when_used_as_spec(spec_has_next)]
    pub fn has_next(&self) -> (b: bool)
        ensures
            b == self.spec_has_next(),
    {
        self.next < usize::MAX
    }

    /// The identity that `get_id` returns next.
    pub fn peek(&self) -> (id: usize)
        ensures
            id == self@,
    {
        self.next
    }

    /// Hands out the next identity.
    pub fn get_id(&mut self) -> (id: usize)
        requires
            old(self).has_next(),
        ensures
            id == old(self)@,
            final(self)@ == old(self)@ + 1,
    {
        let id = self.next;
        self.next = id + 1;
        id
    }
}

} // verus!
