//! Passing a failure up to the caller.
//!
//! The functions here take the outcome of an attempt to open something: the
//! handle on success, or the text of the reason on failure. The handle's type
//! is left open, since nothing here looks inside it.

use vstd::prelude::*;
use crate::console::Console;
use crate::text::bool_text;

verus! {

/// Takes the handle out of an attempt that went well. An attempt that failed
/// is not accepted: the caller has to stop on it.
pub fn test_err_unwarp<T>(opened: Result<T, String>) -> (handle: T)
    requires
        opened is Ok,
    ensures
        opened == Ok::<T, String>(handle),
{
    opened.unwrap()
}

/// Takes the handle out of an attempt that went well, as
/// [`test_err_unwarp`] does, for a caller that stops on a failure with a
/// message of its own.
pub fn test_err_expect<T>(opened: Result<T, String>) -> (handle: T)
    requires
        opened is Ok,
    ensures
        opened == Ok::<T, String>(handle),
{
    opened.expect("not found!")
}

/// What [`func0`] returns for `opened`: the handle as it is, or the flag
/// `false` in place of the reason.
pub open spec fn func0_outcome<T>(opened: Result<T, String>) -> Result<T, bool> {
    match opened {
        Ok(handle) => Ok(handle),
        Err(_) => Err(false),
    }
}

/// What [`func0`] writes for `opened`: nothing on success, one line with the
/// reason on failure.
pub open spec fn func0_lines<T>(opened: Result<T, String>) -> Seq<Seq<char>> {
    match opened {
        Ok(_) => Seq::empty(),
        Err(reason) => seq!["# error: "@ + reason@],
    }
}

/// Turns the outcome of an attempt into a handle or a failure flag. A
/// failure is reported with its reason; a success is passed on in silence.
pub fn func0<T>(opened: Result<T, String>, out: &mut Console) -> (outcome: Result<T, bool>)
    ensures
        outcome == func0_outcome(opened),
        final(out)@ == old(out)@ + func0_lines(opened),
{
    match opened {
        Ok(f) => Ok(f),
        Err(e) => {
            out.print_labelled("# error: ", &e);
            Err(false)
        },
    }
}

/// Delegates to [`func0`] and hands its failure on unchanged: the outcome
/// and the lines written are those of [`func0`] on the same input.
pub fn func1<T>(opened: Result<T, String>, out: &mut Console) -> (outcome: Result<T, bool>)
    ensures
        outcome == func0_outcome(opened),
        final(out)@ == old(out)@ + func0_lines(opened),
{
    let file = func0(opened, out)?;
    Ok(file)
}

/// The line with which [`test_err_pass`] ends: a fixed line on success, the
/// text of the failure flag otherwise.
pub open spec fn verdict_line<T>(outcome: Result<T, bool>) -> Seq<char> {
    match outcome {
        Ok(_) => "open ok!"@,
        Err(flag) => bool_text(flag),
    }
}

/// Runs an attempt through [`func1`] and reports how it ended.
pub fn test_err_pass<T>(opened: Result<T, String>, out: &mut Console)
    ensures
        final(out)@ == (old(out)@ + func0_lines(opened)).push(
            verdict_line(func0_outcome(opened)),
        ),
{
    let file = func1(opened, out);
    match file {
        Ok(_) => out.println("open ok!".to_string()),
        Err(e) => out.print_value(&e),
    }
}

} // verus!
