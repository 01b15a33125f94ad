//! Shared ownership: counting the owners of a value, reading a value through
//! two shared borrows, and the turns of two threads that share a list.

use std::rc::Rc;
use vstd::prelude::*;
use crate::console::Console;
use crate::text::{unsigned_text, Printable};

verus! {

/// The line that reports `count` owners.
pub open spec fn count_line(count: usize) -> Seq<char> {
    "Reference count:"@ + unsigned_text(count as nat)
}

/// Reports how many owners a shared value has.
pub fn report_count(count: usize, out: &mut Console)
    ensures
        final(out)@ == old(out)@.push(count_line(count)),
{
    out.print_labelled("Reference count:", &count);
}

/// `Rc::strong_count`: the number of owners that share the allocation of
/// `shared`. The handle passed in is one of them, so the count is at least
/// one; how many more there are is not visible in the value.
#[verifier::external_body]
fn owners(shared: &Rc<i32>) -> (count: usize)
    ensures
        count >= 1,
{
    Rc::strong_count(shared)
}

/// Shares one number among three owners and reports the owner count.
///
/// The count is read from the allocation at run time, so the contract
/// promises one report line for whatever count is found there.
#[allow(unused_variables)]
pub fn test_rc(out: &mut Console)
    ensures
        exists|count: usize|
            count >= 1 && final(out)@ == old(out)@.push(#[trigger] count_line(count)),
{
    let shared_number = Rc::new(42i32);
    let ref1 = Rc::clone(&shared_number);
    let ref2 = Rc::clone(&shared_number);
    let count = owners(&shared_number);
    report_count(count, out);
}

/// Reports a list as seen through two shared borrows that are alive at the
/// same time. Neither borrow can change the list, so both reports show the
/// same items.
pub fn test_ref_cell(first: &Vec<i32>, second: &Vec<i32>, out: &mut Console)
    ensures
        final(out)@ == old(out)@.push("Shared data: "@ + first.text()).push(
            "Shared data (after modification): "@ + second.text(),
        ),
{
    out.print_labelled("Shared data: ", first);
    out.print_labelled("Shared data (after modification): ", second);
}

/// The item that the writing thread adds to the shared list on each turn.
pub const ADDED: i32 = 4;

/// One turn of the reading thread, taken while it holds the lock: it reports
/// the list.
pub fn reader_turn(data: &Vec<i32>, out: &mut Console)
    ensures
        final(out)@ == old(out)@.push(data.text()),
{
    out.print_value(data);
}

/// One turn of the writing thread, taken while it holds the lock: it adds
/// [`ADDED`] at the end of the list.
pub fn writer_turn(data: &mut Vec<i32>)
    ensures
        final(data)@ == old(data)@.push(ADDED),
{
    data.push(ADDED);
}

} // verus!
