//! The bounded call stack of return addresses.

use vstd::prelude::*;

verus! {

pub const MAX_ELEMENTS: usize = 16;

/// A fixed-capacity LIFO of return addresses. Pushing onto a full stack and
/// popping from an empty one are fatal faults, so both are ruled out by
/// precondition; the engine turns the violated condition into a fault value.
pub struct Stack {
    pub elements: Vec<usize>,
}

impl Stack {
    /// The held return addresses, bottom first.
    pub open spec fn view(&self) -> Seq<usize> {
        self.elements@
    }

    pub fn new() -> (r: Self)
        ensures
            r@ == Seq::<usize>::empty(),
    {
        Stack { elements: Vec::new() }
    }

    /// Number of held addresses, at most the capacity of 16.
    pub fn len(&self) -> (r: usize)
        ensures
            r == self@.len(),
    {
        self.elements.len()
    }

    pub fn push(&mut self, program_counter: usize)
        requires
            old(self)@.len() < MAX_ELEMENTS,
        ensures
            final(self)@ == old(self)@.push(program_counter),
    {
        self.elements.push(program_counter);
    }

    pub fn pop(&mut self) -> (r: usize)
        requires
            old(self)@.len() > 0,
        ensures
            r == old(self)@.last(),
            final(self)@ == old(self)@.drop_last(),
    {
        let r = self.elements.pop();
        match r {
            Some(v) => v,
            None => {
                proof {
                    assert(false);
                }
                0
            },
        }
    }
}

/// Stack discipline: a push followed by a pop returns the pushed address
/// unchanged and leaves the stack as it was; any stack holding fewer than
/// the 16-address capacity admits the push.
pub proof fn lemma_push_pop(s: Seq<usize>, addr: usize)
    requires
        s.len() < MAX_ELEMENTS,
    ensures
        s.push(addr).last() == addr,
        s.push(addr).drop_last() == s,
{
    assert(s.push(addr).drop_last() =~= s);
}

} // verus!
