//! An auto-clicker: once an anchor point has been chosen with a left click,
//! the pointer is moved back to it and clicked at a fixed interval until the
//! user cancels.
//!
//! The crate holds the decisions of that program: how the interval is read
//! from the arguments, how the click loop moves between waiting, clicking and
//! stopped, and which input events matter. Sleeping, listening to the
//! operating system and printing are left to the program around it.

pub mod controller;
pub mod mousecontroller;
pub mod autoclicker;
pub mod config;
pub mod listener;
