//! Clipboard history: the verified core of a clipboard recorder.
//!
//! The library decides everything the recorder computes: where its data
//! lives on disk, what a stored record holds, which SQL statements run with
//! which parameters, how clipboard contents are fingerprinted, and what the
//! polling monitor does on each tick. Reading the clipboard, the file system
//! and the database is left to the caller.
use vstd::prelude::*;

pub mod paths;
pub mod text;
pub mod digest;
pub mod cipher;
pub mod time;
pub mod store;
pub mod commands;
pub mod monitor;

verus! {

} // verus!
