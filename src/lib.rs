//! A bridge that lets many concurrent request handlers hand work to the one
//! worker thread that owns a non-reentrant native runtime, together with the
//! plain data that the authentication layer hands around.

pub mod task;
pub mod queue;
pub mod worker;
pub mod lifecycle;
pub mod errors;
pub mod pii;
pub mod auth;
