//! Safe loading of dynamic libraries: the policy core.
//!
//! The operating system's loader is reached only through plain values: a
//! handle is an integer token, an address is an integer, and what the loader
//! answered for a symbol name is a `Result<usize, Error>`. Everything that
//! turns those answers into typed, all-or-nothing results is verified here.
pub mod api;
pub mod err;
pub mod example;
pub mod raw;
pub mod symbor;
pub mod wrapper;

pub use err::Error;
