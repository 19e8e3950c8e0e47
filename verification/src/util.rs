//! Small general helpers shared across the stack.

use vstd::prelude::*;

verus! {

/// Swap a value for a replacement, taking the old one out.
pub trait Exchange: Sized {
    fn exchange(&mut self, val: Self) -> (r: Self)
        ensures
            *final(self) == val,
            r == *old(self),
    ;
}

impl<T> Exchange for T {
    fn exchange(&mut self, mut val: T) -> (r: T)
        ensures
            *final(self) == val,
            r == *old(self),
    {
        core::mem::swap(self, &mut val);
        val
    }
}

} // verus!
