//! Small, self-contained demonstrations of language features, each with a
//! machine-checked contract.
//!
//! A demonstration writes its output to a [`console::Console`], so that its
//! contract can say which lines it writes and in which order.

pub mod chain;
pub mod cleanup;
pub mod console;
pub mod deref;
pub mod dispatch;
pub mod errors;
pub mod generics;
pub mod largest;
pub mod lifetimes;
pub mod pointer;
pub mod sharing;
pub mod text;
