//! A request interceptor chain: ordered pre- and post-processing hooks around
//! a terminal request handler, with the plain request and response values the
//! hooks work on.
//!
//! - [`message`], [`headers`], [`error`], [`status`]: requests, responses and
//!   errors as plain values.
//! - [`interceptor`]: the two-phase capability of an interceptor, the
//!   capability of a handler, and the record of the phases that ran.
//! - [`chain`]: the chain itself. [`laws`] states what holds of every chain.
//! - [`middleware`], [`handlers`]: the interceptors and handlers that come
//!   with the library.
//! - [`payload`]: a body that arrives in chunks, up to a limit on its size.
//! - [`custom_error`], [`ws`], [`text`]: errors of an application's own, the
//!   echo of a message socket, and decimal numbers as text.

pub mod chain;
pub mod custom_error;
pub mod error;
pub mod handlers;
pub mod headers;
pub mod interceptor;
pub mod laws;
pub mod message;
pub mod middleware;
pub mod payload;
pub mod status;
pub mod text;
pub mod ws;
