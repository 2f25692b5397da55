//! Launch planning for the Trigger System language server.
//!
//! The library decides which JavaScript interpreter and which prebuilt
//! server bundle to launch, and with which arguments. Everything that touches
//! the host (looking up `node` on the search path, asking whether a file
//! exists) is done by the caller, which reports each answer back to the
//! [`resolver::Resolver`] state machine.
pub mod candidates;
pub mod resolver;
pub mod laws;
