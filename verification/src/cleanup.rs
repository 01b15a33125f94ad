//! A value that announces its own end.

use vstd::prelude::*;
use vstd::string::StringExecFns;
use crate::console::Console;

verus! {

/// Owns a text and reports it when the value is dropped.
pub struct CustomSmartPointer {
    pub data: String,
}

impl CustomSmartPointer {
    /// The line that the value leaves behind when it is dropped.
    pub open spec fn drop_line(&self) -> Seq<char> {
        "Dropping CustomSmartPointer with data `"@ + self.data@ + "`!"@
    }

    /// What the destructor does: it reports the text that the value owns.
    pub fn on_drop(&self, out: &mut Console)
        ensures
            final(out)@ == old(out)@.push(self.drop_line()),
    {
        let mut line = String::from_str("Dropping CustomSmartPointer with data `");
        line.append(self.data.as_str());
        line.append("`!");
        out.println(line);
    }
}

/// Makes two smart pointers, first one with the text `my stuff`, then one
/// with the text ` stuff`, and reports that they exist. They are returned in
/// the order in which they were made; the caller's scope decides when each is
/// dropped.
pub fn test_drop(out: &mut Console) -> (made: (CustomSmartPointer, CustomSmartPointer))
    ensures
        made.0.data@ == "my stuff"@,
        made.1.data@ == " stuff"@,
        final(out)@ == old(out)@.push("CustomSmartPointers created."@),
{
    let c = CustomSmartPointer { data: String::from_str("my stuff") };
    let d = CustomSmartPointer { data: String::from_str(" stuff") };
    out.println("CustomSmartPointers created.".to_string());
    (c, d)
}

} // verus!
