//! Core of a bors-style merge queue bot.
//!
//! The library models the merge queue tick engine: on each tick it
//! selects the next approved pull request per repository, performs a
//! trial merge on a staging branch, pushes the result to a CI branch,
//! tracks the resulting build, and on success fast-forwards the
//! integration branch. Forge and store state are held as plain values,
//! so every decision the engine makes is verified; the asynchronous
//! plumbing around it (channels, logging, the event loop) lives outside
//! the library.

pub mod command;
pub mod comment;
pub mod forge;
pub mod help;
pub mod laws;
pub mod queue;
pub mod store;
pub mod strutil;
pub mod tick;
