//! The status codes that the library itself produces.

use vstd::prelude::*;

verus! {

/// `200 OK`.
pub const OK: u16 = 200;

/// `400 Bad Request`.
pub const BAD_REQUEST: u16 = 400;

/// `401 Unauthorized`.
pub const UNAUTHORIZED: u16 = 401;

/// `404 Not Found`.
pub const NOT_FOUND: u16 = 404;

/// `500 Internal Server Error`.
pub const INTERNAL_SERVER_ERROR: u16 = 500;

/// `504 Gateway Timeout`.
pub const GATEWAY_TIMEOUT: u16 = 504;

} // verus!
