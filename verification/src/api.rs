//! The operations as free functions on an instance and its host.
//!
//! They are those of [`EnvInstance`], with the same contracts.

use crate::call::{CallData, CallParams, CreateParams, ReturnType};
use crate::codec::{Decode, Encode};
use crate::env::{is_call_result, is_owed_value, is_storage_value, Env};
use crate::env_access::shared_mut::EnvInstance;
use crate::error::{CallError, CreateError, EnvError, Malformed};
use crate::property::{is_property_value, Property, PropertyValue};
use crate::protocol::Operation;
use crate::types::{AccountId, Balance, BlockNumber, Key, Moment};
use vstd::prelude::*;

verus! {

/// Returns the address of the caller of the executed program.
///
/// `Err` means that the host handed over bytes that do not encode a value of
/// that type; the invocation has to end then.
pub fn caller<T: Env>(
    instance: &mut EnvInstance,
    env: &mut T,
) -> (outcome: Result<AccountId, Malformed>)
    requires
        old(instance).flags().permits(Operation::GetProperty),
    ensures
        final(instance).flags() == old(instance).flags().after(Operation::GetProperty),
        is_owed_value(final(instance).scratch(), outcome),
{
    instance.caller(env)
}

/// Returns the value that was transferred with the call.
///
/// `Err` means that the host handed over bytes that do not encode a value of
/// that type; the invocation has to end then.
pub fn transferred_balance<T: Env>(
    instance: &mut EnvInstance,
    env: &mut T,
) -> (outcome: Result<Balance, Malformed>)
    requires
        old(instance).flags().permits(Operation::GetProperty),
    ensures
        final(instance).flags() == old(instance).flags().after(Operation::GetProperty),
        is_owed_value(final(instance).scratch(), outcome),
{
    instance.transferred_balance(env)
}

/// Returns the current price of gas.
///
/// `Err` means that the host handed over bytes that do not encode a value of
/// that type; the invocation has to end then.
pub fn gas_price<T: Env>(
    instance: &mut EnvInstance,
    env: &mut T,
) -> (outcome: Result<Balance, Malformed>)
    requires
        old(instance).flags().permits(Operation::GetProperty),
    ensures
        final(instance).flags() == old(instance).flags().after(Operation::GetProperty),
        is_owed_value(final(instance).scratch(), outcome),
{
    instance.gas_price(env)
}

/// Returns the gas that is left for the execution.
///
/// `Err` means that the host handed over bytes that do not encode a value of
/// that type; the invocation has to end then.
pub fn gas_left<T: Env>(
    instance: &mut EnvInstance,
    env: &mut T,
) -> (outcome: Result<Balance, Malformed>)
    requires
        old(instance).flags().permits(Operation::GetProperty),
    ensures
        final(instance).flags() == old(instance).flags().after(Operation::GetProperty),
        is_owed_value(final(instance).scratch(), outcome),
{
    instance.gas_left(env)
}

/// Returns the time of the current block, in milliseconds.
///
/// `Err` means that the host handed over bytes that do not encode a value of
/// that type; the invocation has to end then.
pub fn now_in_ms<T: Env>(
    instance: &mut EnvInstance,
    env: &mut T,
) -> (outcome: Result<Moment, Malformed>)
    requires
        old(instance).flags().permits(Operation::GetProperty),
    ensures
        final(instance).flags() == old(instance).flags().after(Operation::GetProperty),
        is_owed_value(final(instance).scratch(), outcome),
{
    instance.now_in_ms(env)
}

/// Returns the address of the executed program.
///
/// `Err` means that the host handed over bytes that do not encode a value of
/// that type; the invocation has to end then.
pub fn address<T: Env>(
    instance: &mut EnvInstance,
    env: &mut T,
) -> (outcome: Result<AccountId, Malformed>)
    requires
        old(instance).flags().permits(Operation::GetProperty),
    ensures
        final(instance).flags() == old(instance).flags().after(Operation::GetProperty),
        is_owed_value(final(instance).scratch(), outcome),
{
    instance.address(env)
}

/// Returns the balance of the executed program.
///
/// `Err` means that the host handed over bytes that do not encode a value of
/// that type; the invocation has to end then.
pub fn balance<T: Env>(
    instance: &mut EnvInstance,
    env: &mut T,
) -> (outcome: Result<Balance, Malformed>)
    requires
        old(instance).flags().permits(Operation::GetProperty),
    ensures
        final(instance).flags() == old(instance).flags().after(Operation::GetProperty),
        is_owed_value(final(instance).scratch(), outcome),
{
    instance.balance(env)
}

/// Returns the rent allowance of the executed program.
///
/// `Err` means that the host handed over bytes that do not encode a value of
/// that type; the invocation has to end then.
pub fn rent_allowance<T: Env>(
    instance: &mut EnvInstance,
    env: &mut T,
) -> (outcome: Result<Balance, Malformed>)
    requires
        old(instance).flags().permits(Operation::GetProperty),
    ensures
        final(instance).flags() == old(instance).flags().after(Operation::GetProperty),
        is_owed_value(final(instance).scratch(), outcome),
{
    instance.rent_allowance(env)
}

/// Returns the number of the current block.
///
/// `Err` means that the host handed over bytes that do not encode a value of
/// that type; the invocation has to end then.
pub fn block_number<T: Env>(
    instance: &mut EnvInstance,
    env: &mut T,
) -> (outcome: Result<BlockNumber, Malformed>)
    requires
        old(instance).flags().permits(Operation::GetProperty),
    ensures
        final(instance).flags() == old(instance).flags().after(Operation::GetProperty),
        is_owed_value(final(instance).scratch(), outcome),
{
    instance.block_number(env)
}

/// Returns the least balance that an account may hold.
///
/// `Err` means that the host handed over bytes that do not encode a value of
/// that type; the invocation has to end then.
pub fn minimum_balance<T: Env>(
    instance: &mut EnvInstance,
    env: &mut T,
) -> (outcome: Result<Balance, Malformed>)
    requires
        old(instance).flags().permits(Operation::GetProperty),
    ensures
        final(instance).flags() == old(instance).flags().after(Operation::GetProperty),
        is_owed_value(final(instance).scratch(), outcome),
{
    instance.minimum_balance(env)
}

/// Fetches one of the ten properties that are plain values, and decodes
/// what the host hands over into the type of that property.
///
/// `Err` means that the host handed over bytes that do not encode a value of
/// that type; the invocation has to end then.
pub fn get_property<T: Env>(
    instance: &mut EnvInstance,
    env: &mut T,
    property: Property,
) -> (outcome: Result<PropertyValue, Malformed>)
    requires
        property != Property::Input,
        old(instance).flags().permits(Operation::GetProperty),
    ensures
        final(instance).flags() == old(instance).flags().after(Operation::GetProperty),
        is_property_value(property, final(instance).scratch(), outcome),
{
    instance.get_property(env, property)
}

/// Emits an event with the given topics and data.
pub fn emit_event<T: Env, E: Encode>(
    instance: &mut EnvInstance,
    env: &mut T,
    topics: &[crate::types::Hash],
    event: &E,
)
    requires
        old(instance).flags().permits(Operation::EmitEvent),
    ensures
        final(instance).flags() == old(instance).flags(),
        final(instance).scratch() == event.encoding(),
{
    instance.emit_event(env, topics, event)
}

/// Sets a property to a value of its type. Only the rent allowance can be
/// set.
pub fn set_property<T: Env>(
    instance: &mut EnvInstance,
    env: &mut T,
    property: Property,
    value: PropertyValue,
)
    requires
        property.is_settable(),
        value.kind() == property.kind(),
        old(instance).flags().permits(Operation::SetProperty),
    ensures
        final(instance).flags() == old(instance).flags().after(Operation::SetProperty),
        final(instance).scratch() == value.encoding(),
{
    instance.set_property(env, property, value)
}

/// Sets the rent allowance of the executed program.
pub fn set_rent_allowance<T: Env>(instance: &mut EnvInstance, env: &mut T, new_value: Balance)
    requires
        old(instance).flags().permits(Operation::SetProperty),
    ensures
        final(instance).flags() == old(instance).flags().after(Operation::SetProperty),
        final(instance).scratch() == new_value.encoding(),
{
    instance.set_rent_allowance(env, new_value)
}

/// Writes the value to the program's storage under the given key.
pub fn set_contract_storage<T: Env, V: Encode>(
    instance: &mut EnvInstance,
    env: &mut T,
    key: Key,
    value: &V,
)
    requires
        old(instance).flags().permits(Operation::SetStorage),
    ensures
        final(instance).flags() == old(instance).flags(),
        final(instance).scratch() == value.encoding(),
{
    instance.set_contract_storage(env, key, value)
}

/// Reads the value that the program's storage holds under the given key.
///
/// Fails with `NotFound` where there is no entry, and with `Decode` where
/// the entry does not hold the encoding of a `V`.
pub fn get_contract_storage<T: Env, V: Decode>(
    instance: &mut EnvInstance,
    env: &mut T,
    key: Key,
) -> (outcome: Result<V, EnvError>)
    requires
        old(instance).flags().permits(Operation::GetStorage),
    ensures
        final(instance).flags() == old(instance).flags(),
        exists|found: bool| is_storage_value(found, final(instance).scratch(), outcome),
{
    instance.get_contract_storage(env, key)
}

/// Removes the entry that the program's storage holds under the given key.
pub fn clear_contract_storage<T: Env>(instance: &mut EnvInstance, env: &mut T, key: Key)
    requires
        old(instance).flags().permits(Operation::ClearStorage),
    ensures
        final(instance).flags() == old(instance).flags(),
        final(instance).scratch() == Seq::<u8>::empty(),
{
    instance.clear_contract_storage(env, key)
}

/// Calls another program for its effects. The outcome is the host's answer.
pub fn invoke_contract<T: Env>(
    instance: &mut EnvInstance,
    env: &mut T,
    call_data: &CallParams<()>,
) -> (outcome: Result<(), EnvError>)
    requires
        old(instance).flags().permits(Operation::Invoke),
    ensures
        final(instance).flags() == old(instance).flags(),
        exists|answer: Result<(), CallError>| outcome == crate::env::call_answer(answer),
{
    instance.invoke_contract(env, call_data)
}

/// Calls another program and decodes what it returns.
///
/// The outcome is the host's failure where the call failed; else the value
/// whose encoding came back, or `Decode` where no `R` has that encoding.
pub fn eval_contract<T: Env, R: Decode>(
    instance: &mut EnvInstance,
    env: &mut T,
    call_data: &CallParams<ReturnType<R>>,
) -> (outcome: Result<R, EnvError>)
    requires
        old(instance).flags().permits(Operation::Evaluate),
    ensures
        final(instance).flags() == old(instance).flags(),
        exists|answer: Result<(), CallError>|
            is_call_result(crate::env::call_answer(answer), final(instance).scratch(), outcome),
{
    instance.eval_contract(env, call_data)
}

/// Creates another program and decodes its address.
///
/// Where the host reports that the instantiation failed, the error is the
/// host's. Where it succeeded, the result is the address whose encoding came
/// back, or `Decode` where what came back is no address.
pub fn create_contract<T: Env>(
    instance: &mut EnvInstance,
    env: &mut T,
    params: &CreateParams,
) -> (outcome: Result<AccountId, EnvError>)
    requires
        old(instance).flags().permits(Operation::Instantiate),
    ensures
        final(instance).flags() == old(instance).flags(),
        exists|answer: Result<(), CreateError>|
            is_call_result(crate::env::create_answer(answer), final(instance).scratch(), outcome),
{
    instance.create_contract(env, params)
}

/// Takes the input of the invocation: the selector and the encoded
/// arguments.
///
/// This can be done once, and only before anything else has interacted with
/// the host. `Err` means that the host handed over fewer than the four bytes
/// of a selector; the invocation has to end then.
pub fn input<T: Env>(
    instance: &mut EnvInstance,
    env: &mut T,
) -> (outcome: Result<CallData, Malformed>)
    requires
        old(instance).flags().permits(Operation::ReadInput),
    ensures
        final(instance).flags() == old(instance).flags().after(Operation::ReadInput),
        match outcome {
            Ok(call_data) => call_data@ == final(instance).scratch() && call_data.well_formed(),
            Err(_) => final(instance).scratch().len() < 4,
        },
{
    instance.input(env)
}

/// Hands the result of the invocation to the host.
///
/// This is the last thing that an invocation does: after it, only printing
/// is permitted.
pub fn output<T: Env, R: Encode>(instance: &mut EnvInstance, env: &mut T, return_value: &R)
    requires
        old(instance).flags().permits(Operation::WriteOutput),
    ensures
        final(instance).flags() == old(instance).flags().after(Operation::WriteOutput),
        final(instance).scratch() == return_value.encoding(),
{
    instance.output(env, return_value)
}

/// Asks the host for a random hash, salted with `subject`.
///
/// `Err` means that the host handed over bytes that are no hash; the
/// invocation has to end then.
pub fn random<T: Env>(
    instance: &mut EnvInstance,
    env: &mut T,
    subject: &[u8],
) -> (outcome: Result<crate::types::Hash, Malformed>)
    requires
        old(instance).flags().permits(Operation::Random),
    ensures
        final(instance).flags() == old(instance).flags().after(Operation::Random),
        is_owed_value(final(instance).scratch(), outcome),
{
    instance.random(env, subject)
}

/// Writes `content` to the diagnostic log. This is always permitted and
/// changes nothing.
pub fn println<T: Env>(instance: &mut EnvInstance, env: &mut T, content: &str)
    ensures
        final(instance).flags() == old(instance).flags(),
        final(instance).scratch() == old(instance).scratch(),
{
    instance.println(env, content)
}

/// Reads the value that the host's own storage holds under the given key.
///
/// Fails with `NotFound` where there is no entry, and with `Decode` where
/// the entry does not hold the encoding of a `V`.
pub fn get_runtime_storage<T: Env, V: Decode>(
    instance: &mut EnvInstance,
    env: &mut T,
    key: &[u8],
) -> (outcome: Result<V, EnvError>)
    requires
        old(instance).flags().permits(Operation::GetRuntimeStorage),
    ensures
        final(instance).flags() == old(instance).flags(),
        exists|found: bool| is_storage_value(found, final(instance).scratch(), outcome),
{
    instance.get_runtime_storage(env, key)
}

} // verus!
