//! A verified user-record service core: a `User` entity, an identifier
//! discipline, a document store keyed by store-assigned identifiers, and the
//! handler layer that maps requests and store outcomes to responses.
pub mod handlers;
pub mod laws;
pub mod oid;
pub mod store;
pub mod user;
