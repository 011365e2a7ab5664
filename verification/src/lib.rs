//! Identity resolution for a federated social-networking server.
//!
//! Three read-only operations share one server identity: building the actor
//! document of a local account, answering WebFinger discovery queries for
//! `acct:` handles, and wrapping an account's stored posts in an ordered
//! collection.
//!
//! The library never touches storage. Each operation is split around the one
//! question only the host can answer: a first function validates the request
//! and says whom to look up, the host asks its store, and a second function
//! turns the store's answer into a document or a typed failure.
//!
//! | operation | first half | the host asks | second half |
//! |---|---|---|---|
//! | actor | `Username::parse` | the key store | `resolve_actor` |
//! | discovery | `discovery_target` | the user directory | `resolve_discovery` |
//! | outbox | `Username::parse` | the post store | `resolve_outbox` |
//!
//! Stores are addressed by `Username` only, a type whose values are valid
//! path segments by construction.

pub mod actor;
pub mod discovery;
pub mod error;
pub mod identity;
pub mod outbox;
pub mod text;
pub mod uri;
pub mod username;
