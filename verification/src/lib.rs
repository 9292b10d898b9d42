//! The boundary between a guest program and the host that executes it.
//!
//! Every operation that crosses the boundary goes through one [`EnvInstance`],
//! which owns the scratch buffer and enforces the order in which the host may
//! be addressed: the input is read at most once and before anything else, the
//! output is written at most once and after everything else.

pub mod api;
pub mod call;
pub mod codec;
pub mod endian;
pub mod env;
pub mod env_access;
pub mod error;
pub mod property;
pub mod protocol;
mod scale;
pub mod types;
