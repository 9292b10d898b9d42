//! What can go wrong at the boundary.

use vstd::prelude::*;

verus! {

/// A failure that the guest can branch on. None of them ends the invocation.
#[derive(Clone, Copy, Debug, PartialEq, Eq, Structural)]
pub enum EnvError {
    /// The storage entry is absent.
    NotFound,
    /// The bytes are not an encoding of the requested type.
    Decode,
    /// The called program trapped.
    TargetTrapped,
    /// The address names no program.
    InvalidAddress,
    /// The endowment is too small.
    InsufficientEndowment,
    /// The called program rejected its arguments.
    InvalidArguments,
    /// The call ran out of gas.
    GasExhausted,
    /// The code reference names no code.
    InvalidCodeReference,
}

/// Why a call of another program failed, as the host reports it.
#[derive(Clone, Copy, Debug, PartialEq, Eq, Structural)]
pub enum CallError {
    /// The called program trapped.
    TargetTrapped,
    /// The address names no program.
    InvalidAddress,
    /// The endowment is too small.
    InsufficientEndowment,
    /// The called program rejected its arguments.
    InvalidArguments,
    /// The call ran out of gas.
    GasExhausted,
}

/// Why an instantiation failed, as the host reports it: for each reason
/// that a call can fail for, and because the code is not there.
#[derive(Clone, Copy, Debug, PartialEq, Eq, Structural)]
pub enum CreateError {
    /// The constructor trapped.
    TargetTrapped,
    /// The address names no program.
    InvalidAddress,
    /// The endowment is too small.
    InsufficientEndowment,
    /// The constructor rejected its arguments.
    InvalidArguments,
    /// The instantiation ran out of gas.
    GasExhausted,
    /// The code reference names no code.
    InvalidCodeReference,
}

impl CallError {
    /// The failure as the guest sees it.
    pub open spec fn spec_env_error(self) -> EnvError {
        match self {
            CallError::TargetTrapped => EnvError::TargetTrapped,
            CallError::InvalidAddress => EnvError::InvalidAddress,
            CallError::InsufficientEndowment => EnvError::InsufficientEndowment,
            CallError::InvalidArguments => EnvError::InvalidArguments,
            CallError::GasExhausted => EnvError::GasExhausted,
        }
    }

    /// The failure as the guest sees it.
    #[verifier::when_used_as_spec(spec_env_error)]
    pub fn env_error(self) -> (error: EnvError)
        ensures
            error == self.spec_env_error(),
    {
        match self {
            CallError::TargetTrapped => EnvError::TargetTrapped,
            CallError::InvalidAddress => EnvError::InvalidAddress,
            CallError::InsufficientEndowment => EnvError::InsufficientEndowment,
            CallError::InvalidArguments => EnvError::InvalidArguments,
            CallError::GasExhausted => EnvError::GasExhausted,
        }
    }
}

impl CreateError {
    /// The failure as the guest sees it.
    pub open spec fn spec_env_error(self) -> EnvError {
        match self {
            CreateError::TargetTrapped => EnvError::TargetTrapped,
            CreateError::InvalidAddress => EnvError::InvalidAddress,
            CreateError::InsufficientEndowment => EnvError::InsufficientEndowment,
            CreateError::InvalidArguments => EnvError::InvalidArguments,
            CreateError::GasExhausted => EnvError::GasExhausted,
            CreateError::InvalidCodeReference => EnvError::InvalidCodeReference,
        }
    }

    /// The failure as the guest sees it.
    #[verifier::when_used_as_spec(spec_env_error)]
    pub fn env_error(self) -> (error: EnvError)
        ensures
            error == self.spec_env_error(),
    {
        match self {
            CreateError::TargetTrapped => EnvError::TargetTrapped,
            CreateError::InvalidAddress => EnvError::InvalidAddress,
            CreateError::InsufficientEndowment => EnvError::InsufficientEndowment,
            CreateError::InvalidArguments => EnvError::InvalidArguments,
            CreateError::GasExhausted => EnvError::GasExhausted,
            CreateError::InvalidCodeReference => EnvError::InvalidCodeReference,
        }
    }
}

/// The host handed over bytes that are not an encoding of the type it owes.
///
/// This cannot be recovered from: the state on the host's side may be
/// inconsistent, and the invocation has to end.
#[derive(Clone, Copy, Debug, PartialEq, Eq, Structural)]
pub struct Malformed;

} // verus!
