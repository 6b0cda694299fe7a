//! Interposition of C library functions through `LD_PRELOAD`.
//!
//! The verified part holds the decisions an interposed symbol makes: whether
//! its hook may run yet, what answers the call when the hook is bypassed or
//! fails, and when the next definition of the symbol is looked up.

pub mod dispatch;
pub mod init;
pub mod lookup;

pub use init::{initialize, initialized, UNINITIALIZED};
