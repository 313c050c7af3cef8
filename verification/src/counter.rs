//! The counter resource of the counter demo screen: two buttons adjust it
//! by one per click.

use vstd::prelude::*;

verus! {

/// A counter adjusted by the demo's increment and decrement buttons.
#[derive(Clone, Copy, Debug, PartialEq, Eq, Structural)]
pub struct Counter {
    pub value: i32,
}

impl Default for Counter {
    fn default() -> (c: Self)
        ensures
            c.value == 0,
    {
        Counter { value: 0 }
    }
}

impl Counter {
    /// Adds one to the counter.
    pub fn increment(&mut self)
        requires
            old(self).value < i32::MAX,
        ensures
            final(self).value == old(self).value + 1,
    {
        self.value = self.value + 1;
    }

    /// Takes one from the counter.
    pub fn decrement(&mut self)
        requires
            old(self).value > i32::MIN,
        ensures
            final(self).value == old(self).value - 1,
    {
        self.value = self.value - 1;
    }
}

} // verus!
