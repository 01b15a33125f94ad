//! A wrapper that can be read through the dereference operator.

use std::ops::Deref;
use vstd::prelude::*;
use crate::console::Console;

verus! {

/// Wraps one value.
pub struct Alpha<T> {
    pub val: T,
}

impl Alpha<i32> {
    /// Adds one to the wrapped number. The number must be below the largest
    /// that the type holds.
    pub fn inc(&mut self)
        requires
            old(self).val < i32::MAX,
        ensures
            final(self).val == old(self).val + 1,
    {
        self.val = self.val + 1;
    }
}

impl<T> Deref for Alpha<T> {
    type Target = T;

    /// Dereferencing a wrapper gives the wrapped value.
    fn deref(&self) -> (target: &T)
        ensures
            *target == self.val,
    {
        &self.val
    }
}

/// Reads a wrapped number twice, by its field and through the dereference
/// operator, and reports both readings.
pub fn test_deref(out: &mut Console)
    ensures
        final(out)@ == old(out)@.push("value0 = 1"@).push("value1 = 1"@),
{
    let a = Alpha { val: 1i32 };
    out.print_labelled("value0 = ", &a.val);
    out.print_labelled("value1 = ", &*a);
    proof {
        reveal_strlit("value0 = ");
        reveal_strlit("value1 = ");
        reveal_strlit("value0 = 1");
        reveal_strlit("value1 = 1");
        assert("value0 = "@ + crate::text::signed_text(1) =~= "value0 = 1"@);
        assert("value1 = "@ + crate::text::signed_text(1) =~= "value1 = 1"@);
    }
}

} // verus!
