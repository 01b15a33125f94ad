//! A struct that borrows its text from elsewhere.

use vstd::prelude::*;
use crate::console::Console;

verus! {

/// Holds a borrowed string slice, and so cannot outlive it.
pub struct Bar<'a> {
    pub sref: &'a str,
}

impl<'b> Bar<'b> {
    /// Reports the borrowed text and hands it out.
    pub fn show(&self, out: &mut Console) -> (sref: &str)
        ensures
            sref@ == self.sref@,
            final(out)@ == old(out)@.push("#show: "@ + self.sref@),
    {
        out.print_labelled("#show: ", &self.sref);
        self.sref
    }
}

/// Reports the text that a [`Bar`] borrows, first by reading the field, then
/// through [`Bar::show`].
pub fn test_struct_prop_life_time(out: &mut Console)
    ensures
        final(out)@ == old(out)@.push("bar sref : xyz"@).push("#show: xyz"@),
{
    let bar = Bar { sref: "xyz" };
    out.print_labelled("bar sref : ", &bar.sref);
    bar.show(out);
    proof {
        reveal_strlit("xyz");
        reveal_strlit("bar sref : ");
        reveal_strlit("#show: ");
        reveal_strlit("bar sref : xyz");
        reveal_strlit("#show: xyz");
        assert("bar sref : "@ + "xyz"@ =~= "bar sref : xyz"@);
        assert("#show: "@ + "xyz"@ =~= "#show: xyz"@);
    }
}

} // verus!
