//! Core logic of a persistent clipboard holder.
//!
//! The library decides everything the daemon does: which format to request
//! from an external selection, how format identifiers are canonicalized,
//! whether captured bytes differ from the stored snapshot, and how the
//! ownership state machine reacts to protocol events. The display-server
//! plumbing that carries these decisions out lives outside the library.

pub mod detect;
pub mod format;
pub mod machine;
