//! Destination resolution and copy planning for a game catalogue's assets.
//!
//! The library decides; the caller does the file I/O. Each job is a small
//! state machine: it hands out one [`action::Action`] at a time (probe a path, create
//! a directory, copy or write a file, finish) and is advanced with the
//! [`action::Event`] that tells what came of it.
use vstd::prelude::*;

pub mod action;
pub mod catalog;
pub mod import;
pub mod laws;
pub mod layout;

verus! {

} // verus!
