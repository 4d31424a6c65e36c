//! The status numbers under which replies and errors are sent.

use vstd::prelude::*;

verus! {

/// The status of a reply that carries what was asked for.
pub const STATUS_OK: u16 = 200;

/// The status of a reply that carries a chat just created.
pub const STATUS_CREATED: u16 = 201;

/// The status of a refused payload.
pub const STATUS_BAD_REQUEST: u16 = 400;

/// The status of a request for a chat that is absent or not the caller's to change.
pub const STATUS_NOT_FOUND: u16 = 404;

/// The status of a failure inside the store.
pub const STATUS_INTERNAL: u16 = 500;

} // verus!
