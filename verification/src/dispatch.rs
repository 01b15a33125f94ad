//! One capability, reached in four ways: through a borrowed argument of an
//! unnamed type, through a bounded type parameter written in two forms, and
//! through a returned value whose type stays hidden.

use vstd::prelude::*;
use crate::console::Console;

verus! {

/// The capability to show oneself on the transcript.
pub trait DemoTrait {
    /// The lines that this value writes when it is shown.
    spec fn shown(&self) -> Seq<Seq<char>>;

    /// Writes the value's lines after those already there.
    fn show(&self, out: &mut Console)
        ensures
            final(out)@ == old(out)@ + self.shown(),
    ;
}

/// A value without content, which shows itself by its name.
pub struct Foo {}

impl DemoTrait for Foo {
    open spec fn shown(&self) -> Seq<Seq<char>> {
        seq!["Foo"@]
    }

    fn show(&self, out: &mut Console) {
        out.println("Foo".to_string());
    }
}

/// Shows a value that is passed as a borrowed argument with the capability.
#[allow(non_snake_case)]
pub fn testTraitAsArg(arg: &impl DemoTrait, out: &mut Console)
    ensures
        final(out)@ == old(out)@ + arg.shown(),
{
    arg.show(out);
}

/// Shows a value of a type parameter that is bound at its declaration.
#[allow(non_snake_case)]
pub fn testTraitGenericConstraints0<T: DemoTrait>(arg: &T, out: &mut Console)
    ensures
        final(out)@ == old(out)@ + arg.shown(),
{
    arg.show(out);
}

/// Shows a value of a type parameter that is bound in a `where` clause.
#[allow(non_snake_case)]
pub fn testTraitGenericConstraints1<T>(arg: &T, out: &mut Console)
    where
        T: DemoTrait,
    ensures
        final(out)@ == old(out)@ + arg.shown(),
{
    arg.show(out);
}

/// Returns a value of which the caller learns the capability and what it
/// shows, but not the type.
#[allow(non_snake_case)]
pub fn testTraitAsRet() -> (obj: impl DemoTrait)
    ensures
        obj.shown() == seq!["Foo"@],
{
    let foo_obj = Foo {};
    foo_obj
}

/// Shows one [`Foo`] in each of the four ways.
pub fn test_trait(out: &mut Console)
    ensures
        final(out)@ == old(out)@.push("Foo"@).push("Foo"@).push("Foo"@).push("Foo"@),
{
    let foo_obj = Foo {};
    testTraitAsArg(&foo_obj, out);
    testTraitGenericConstraints0(&foo_obj, out);
    testTraitGenericConstraints1(&foo_obj, out);
    let obj = testTraitAsRet();
    obj.show(out);
}

} // verus!
