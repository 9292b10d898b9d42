//! Access to the host: the instance that guards the protocol, and a handle
//! that holds an instance together with its host.

pub mod mutable;
pub mod shared_mut;
