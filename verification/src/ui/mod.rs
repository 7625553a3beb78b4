//! The user interface's side: the handle on the engine, the wiring of list
//! events to commands, and the decisions of picking a library folder.

pub mod handle;
pub mod handlers;
pub mod pick;
pub mod outcome;
