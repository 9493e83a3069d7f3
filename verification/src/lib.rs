//! Session bootstrap and resumption for a federated chat client.
//!
//! The library covers the decision logic of client construction: validating
//! the user identity, choosing between a fresh interactive login and a
//! resumed session, encoding and decoding the persisted session record, and
//! seeding the background synchronisation loop with a continuation token.
//! The surrounding I/O (filesystem, network, task spawning) lives outside
//! the library and drives it through plain values.

pub mod errors;
pub mod identity;
pub mod session;
pub mod bootstrap;
pub mod sync_state;
