//! A verified core for chat resources in a multi-tenant messaging platform.
//!
//! Every chat belongs to one workspace and may be changed or removed only by the user
//! who created it. The crate holds the chat entity, an in-memory store with the five
//! storage primitives, the service that scopes each operation to its caller, and the
//! request handlers that turn an absent chat into a "not found" error.

pub mod chat;
pub mod error;
pub mod filtering;
pub mod handlers;
pub mod lifecycle;
pub mod model;
pub mod service;
pub mod status;
pub mod store;
pub mod text;
