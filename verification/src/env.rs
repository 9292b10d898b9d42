//! The host, as this crate sees it.
//!
//! One implementation of [`Env`] exists per host. Nothing is assumed of what
//! an implementation answers: the bytes that it hands back are decoded, and
//! a value is made of them only where they are the encoding of one.

use crate::call::{CallParams, CreateParams, ReturnType};
use crate::codec::Decode;
use crate::error::{CallError, CreateError, EnvError, Malformed};
use crate::property::{encoded_len, Property};
use crate::types::Key;
use vstd::prelude::*;

verus! {

/// The operations that a host offers.
///
/// Where the host answers with bytes, it leaves them in `scratch`, which is
/// empty when the host is called. Where it is given bytes, they are the
/// encoding of the value in question.
pub trait Env {
    /// Leaves the encoded value of `property` in `scratch`.
    fn get_property(&mut self, property: Property, scratch: &mut Vec<u8>)
        requires
            old(scratch)@.len() == 0,
    ;

    /// Sets `property` to the value that `value` encodes. The property is
    /// one that can be set, and `value` has the length of its type.
    fn set_property(&mut self, property: Property, value: &[u8])
        requires
            property.is_settable(),
            value@.len() == encoded_len(property.kind()),
    ;

    /// Leaves the bytes stored under `key` in `scratch` and returns true, or
    /// returns false where nothing is stored there.
    fn get_contract_storage(&mut self, key: &Key, scratch: &mut Vec<u8>) -> bool
        requires
            old(scratch)@.len() == 0,
    ;

    /// Stores `value` under `key`.
    fn set_contract_storage(&mut self, key: &Key, value: &[u8]);

    /// Removes what is stored under `key`.
    fn clear_contract_storage(&mut self, key: &Key);

    /// Leaves the bytes that the host's own storage holds under `key` in
    /// `scratch` and returns true, or returns false where it holds nothing.
    fn get_runtime_storage(&mut self, key: &[u8], scratch: &mut Vec<u8>) -> bool
        requires
            old(scratch)@.len() == 0,
    ;

    /// Makes the call for its effects.
    fn invoke_contract(&mut self, scratch: &mut Vec<u8>, params: &CallParams<()>) -> Result<
        (),
        CallError,
    >
        requires
            old(scratch)@.len() == 0,
    ;

    /// Makes the call and, where it succeeds, leaves the encoded result in
    /// `scratch`.
    fn eval_contract<R>(
        &mut self,
        scratch: &mut Vec<u8>,
        params: &CallParams<ReturnType<R>>,
    ) -> Result<(), CallError>
        requires
            old(scratch)@.len() == 0,
    ;

    /// Creates the program and, where that succeeds, leaves its encoded
    /// address in `scratch`.
    fn create_contract(&mut self, scratch: &mut Vec<u8>, params: &CreateParams) -> Result<
        (),
        CreateError,
    >
        requires
            old(scratch)@.len() == 0,
    ;

    /// Emits an event with the given topics and encoded data.
    fn emit_event(&mut self, topics: &[crate::types::Hash], data: &[u8]);

    /// Leaves an encoded random hash in `scratch`. `subject` salts it.
    fn random(&mut self, scratch: &mut Vec<u8>, subject: &[u8])
        requires
            old(scratch)@.len() == 0,
    ;

    /// Writes `content` to the diagnostic log.
    fn println(&mut self, content: &str);

    /// Takes the encoded result of the invocation.
    fn output(&mut self, value: &[u8]);
}

/// What bytes that the host owes amount to: a value whose encoding they are,
/// or the verdict that they are the encoding of no value of the type.
pub open spec fn is_owed_value<V: Decode>(bytes: Seq<u8>, outcome: Result<V, Malformed>) -> bool {
    match outcome {
        Ok(value) => value.encoding() == bytes,
        Err(_) => forall|value: V| #[trigger] value.encoding() != bytes,
    }
}

/// Decodes bytes that the host owes.
pub fn owed_value<V: Decode>(bytes: &[u8]) -> (outcome: Result<V, Malformed>)
    ensures
        is_owed_value(bytes@, outcome),
{
    match V::decode(bytes) {
        Some(value) => Ok(value),
        None => Err(Malformed),
    }
}

/// What the host's answer to a storage read amounts to: the value whose
/// encoding the entry holds; that there is no entry; or that the entry
/// holds the encoding of no value of the type.
pub open spec fn is_storage_value<V: Decode>(
    found: bool,
    bytes: Seq<u8>,
    outcome: Result<V, EnvError>,
) -> bool {
    match outcome {
        Ok(value) => found && value.encoding() == bytes,
        Err(error) => if found {
            error == EnvError::Decode && forall|value: V| #[trigger] value.encoding() != bytes
        } else {
            error == EnvError::NotFound
        },
    }
}

/// Turns the host's answer to a storage read into a value.
pub fn storage_value<V: Decode>(found: bool, bytes: &[u8]) -> (outcome: Result<V, EnvError>)
    ensures
        is_storage_value(found, bytes@, outcome),
{
    if !found {
        return Err(EnvError::NotFound);
    }
    match V::decode(bytes) {
        Some(value) => Ok(value),
        None => Err(EnvError::Decode),
    }
}

/// The host's answer to a call as the guest sees it: success, or the failure
/// that the host reports. It is never any other error.
pub open spec fn spec_call_answer(answer: Result<(), CallError>) -> Result<(), EnvError> {
    match answer {
        Ok(_) => Ok(()),
        Err(error) => Err(error.env_error()),
    }
}

/// The host's answer to a call as the guest sees it.
#[verifier::when_used_as_spec(spec_call_answer)]
pub fn call_answer(answer: Result<(), CallError>) -> (outcome: Result<(), EnvError>)
    ensures
        outcome == spec_call_answer(answer),
{
    match answer {
        Ok(_) => Ok(()),
        Err(error) => Err(error.env_error()),
    }
}

/// The host's answer to an instantiation as the guest sees it: success, or
/// the failure that the host reports. It is never any other error.
pub open spec fn spec_create_answer(answer: Result<(), CreateError>) -> Result<(), EnvError> {
    match answer {
        Ok(_) => Ok(()),
        Err(error) => Err(error.env_error()),
    }
}

/// The host's answer to an instantiation as the guest sees it.
#[verifier::when_used_as_spec(spec_create_answer)]
pub fn create_answer(answer: Result<(), CreateError>) -> (outcome: Result<(), EnvError>)
    ensures
        outcome == spec_create_answer(answer),
{
    match answer {
        Ok(_) => Ok(()),
        Err(error) => Err(error.env_error()),
    }
}

/// What the host's answer to a call amounts to: the host's own error where
/// the call failed; else the value whose encoding came back, or a decode
/// error where what came back is the encoding of no value of the type.
pub open spec fn is_call_result<V: Decode>(
    answer: Result<(), EnvError>,
    bytes: Seq<u8>,
    outcome: Result<V, EnvError>,
) -> bool {
    match answer {
        Err(error) => outcome == Err::<V, EnvError>(error),
        Ok(_) => match outcome {
            Ok(value) => value.encoding() == bytes,
            Err(error) => error == EnvError::Decode && forall|value: V| #[trigger]
                value.encoding() != bytes,
        },
    }
}

/// Turns the host's answer to a call into a value.
pub fn call_result<V: Decode>(answer: Result<(), EnvError>, bytes: &[u8]) -> (outcome: Result<
    V,
    EnvError,
>)
    ensures
        is_call_result(answer, bytes@, outcome),
{
    match answer {
        Err(error) => Err(error),
        Ok(_) => match V::decode(bytes) {
            Some(value) => Ok(value),
            None => Err(EnvError::Decode),
        },
    }
}

} // verus!
