//! A handle on a memory location that can be handed to another thread, and
//! what two threads that share such a location do with it.

use vstd::prelude::*;
use crate::console::Console;
use crate::text::{unsigned_text, Printable};

verus! {

/// Carries the address of a `u32` so that it can be handed to another thread.
///
/// The address is held as a plain integer, which is transferable between
/// threads by construction. Turning it back into a reference is left to the
/// caller, who alone knows whether the location is still alive.
pub struct PointerWrapper {
    pointer: usize,
}

impl PointerWrapper {
    /// The address that this wrapper carries.
    pub closed spec fn view(&self) -> usize {
        self.pointer
    }

    /// Wraps `pointer`.
    pub fn new(pointer: usize) -> (wrapper: Self)
        ensures
            wrapper@ == pointer,
    {
        Self { pointer }
    }

    /// Hands the wrapped address back, unchanged.
    pub fn get(&self) -> (pointer: usize)
        ensures
            pointer == self@,
    {
        self.pointer
    }
}

/// The value that the writing thread leaves in the shared location.
pub const WRITTEN: u32 = 2;

/// The line that thread number `thread` prints after it has read `seen` from
/// the shared location.
pub open spec fn sighting(thread: u32, seen: u32) -> Seq<char> {
    "["@ + unsigned_text(thread as nat) + "]--"@ + unsigned_text(seen as nat)
}

fn print_sighting(thread: u32, seen: u32, out: &mut Console)
    ensures
        final(out)@ == old(out)@.push(sighting(thread, seen)),
{
    let mut line = "[".to_string();
    thread.fmt(&mut line);
    "]--".fmt(&mut line);
    seen.fmt(&mut line);
    out.println(line);
}

/// The first thread's work on the shared location: it reports what it finds
/// there, overwrites it with [`WRITTEN`], and reports what it then reads back.
pub fn first_thread(pointee: &mut u32, out: &mut Console)
    ensures
        *final(pointee) == WRITTEN,
        final(out)@ == old(out)@.push(sighting(1, *old(pointee))).push(sighting(1, WRITTEN)),
{
    print_sighting(1, *pointee, out);
    *pointee = WRITTEN;
    print_sighting(1, *pointee, out);
}

/// The second thread's work on the shared location: it reports what it finds
/// there and leaves it as it is.
pub fn second_thread(pointee: &u32, out: &mut Console)
    ensures
        final(out)@ == old(out)@.push(sighting(2, *pointee)),
{
    print_sighting(2, *pointee, out);
}

} // verus!
