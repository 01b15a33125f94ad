//! Generic data: a struct and an enum whose type parameter is filled in at the
//! point of use.

use vstd::prelude::*;
use vstd::string::StringExecFns;
use crate::console::Console;
use crate::text::Printable;

verus! {

/// A pair of coordinates of one type.
pub struct Pointer<T> {
    pub x: T,
    pub y: T,
}

/// A pair writes both coordinates, each after its name.
impl<T: Printable> Printable for Pointer<T> {
    open spec fn text(&self) -> Seq<char> {
        "x: "@ + self.x.text() + ", y: "@ + self.y.text()
    }

    fn fmt(&self, f: &mut String) {
        f.append("x: ");
        self.x.fmt(f);
        f.append(", y: ");
        self.y.fmt(f);
    }
}

/// Reports the pair of the numbers one and two.
pub fn test_pointer(out: &mut Console)
    ensures
        final(out)@ == old(out)@.push("pointer: x: 1, y: 2"@),
{
    let pointer = Pointer { x: 1i32, y: 2i32 };
    out.print_labelled("pointer: ", &pointer);
    proof {
        reveal_strlit("pointer: ");
        reveal_strlit("x: ");
        reveal_strlit(", y: ");
        reveal_strlit("pointer: x: 1, y: 2");
        assert("pointer: "@ + pointer.text() =~= "pointer: x: 1, y: 2"@);
    }
}

/// Something to do; eating names what is eaten.
pub enum Action<F> {
    Sleep,
    Run,
    Walk,
    Eat(F),
}

impl<F: Printable> Action<F> {
    /// The line that reports this action: the food where the action is
    /// eating, one fixed line for every other action.
    pub open spec fn report_line(&self) -> Seq<char> {
        match self {
            Action::Eat(food) => "# food = "@ + food.text(),
            _ => "other action!"@,
        }
    }

    /// Reports this action.
    pub fn report(&self, out: &mut Console)
        ensures
            final(out)@ == old(out)@.push(self.report_line()),
    {
        match self {
            Action::Eat(food) => out.print_labelled("# food = ", food),
            _ => out.println("other action!".to_string()),
        }
    }
}

/// Reports two meals: one named by a word, one by a number.
pub fn test_action(out: &mut Console)
    ensures
        final(out)@ == old(out)@.push("# food = rice"@).push("# food = 100"@),
{
    let action = Action::Eat("rice");
    action.report(out);
    let action = Action::Eat(100i32);
    action.report(out);
    proof {
        reveal_strlit("# food = ");
        reveal_strlit("rice");
        reveal_strlit("# food = rice");
        reveal_strlit("# food = 100");
        reveal_with_fuel(crate::text::unsigned_text, 3);
        assert("# food = "@ + "rice"@ =~= "# food = rice"@);
        assert("# food = "@ + crate::text::signed_text(100) =~= "# food = 100"@);
    }
}

} // verus!
