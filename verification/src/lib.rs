//! A reply-correlation engine for an asynchronous message-bus connection:
//! callers submit requests through a cloneable handle, each request gets a
//! unique serial, and a single dispatch loop — the sole owner of the
//! pending-request table — matches incoming replies to pending serials and
//! completes each caller's single-use future exactly once, with graceful
//! shutdown and error propagation across the asynchronous boundary.

pub mod chan;
pub mod command;
pub mod compose;
pub mod dispatch;
pub mod error;
pub mod handle;
pub mod laws;
pub mod message;
pub mod reply;
