//! A handle that holds an instance together with its host.

use crate::call::{CallData, CallParams, CreateParams, ReturnType};
use crate::codec::{Decode, Encode};
use crate::env::{is_call_result, is_owed_value, is_storage_value, Env};
use crate::env_access::shared_mut::EnvInstance;
use crate::error::{CallError, CreateError, EnvError, Malformed};
use crate::property::{is_property_value, Property, PropertyValue};
use crate::protocol::{Flags, Operation};
use crate::types::{AccountId, Balance, BlockNumber, Key, Moment};
use vstd::prelude::*;

verus! {

/// The access of one invocation to its host: the instance that guards the
/// protocol, and the host that it guards.
///
/// The operations are those of [`EnvInstance`], with the same contracts.
pub struct EnvAccessMut<T> {
    /// The state of the invocation at the boundary.
    instance: EnvInstance,
    /// The host.
    env: T,
}

impl<T: Env> EnvAccessMut<T> {
    /// The flags of the protocol.
    pub closed spec fn spec_flags(&self) -> Flags {
        self.instance.flags()
    }

    /// What the scratch buffer holds.
    pub closed spec fn scratch(&self) -> Seq<u8> {
        self.instance.scratch()
    }

    /// The access with which an invocation starts.
    pub fn new(env: T) -> (access: EnvAccessMut<T>)
        ensures
            access.flags() == Flags::initial(),
            access.scratch() == Seq::<u8>::empty(),
            access.host() == env,
    {
        EnvAccessMut { instance: EnvInstance::new(), env }
    }

    /// The flags of the protocol.
    #[verifier::when_used_as_spec(spec_flags)]
    pub fn flags(&self) -> (flags: Flags)
        ensures
            flags == self.spec_flags(),
    {
        self.instance.flags()
    }

    /// What the scratch buffer holds.
    pub fn scratch_bytes(&self) -> (bytes: &[u8])
        ensures
            bytes@ == self.scratch(),
    {
        self.instance.scratch_bytes()
    }

    /// The host.
    pub closed spec fn host(&self) -> T {
        self.env
    }

    /// The host.
    pub fn env(&self) -> (env: &T)
        ensures
            *env == self.host(),
    {
        &self.env
    }

    /// Returns the address of the caller of the executed program.
    ///
    /// `Err` means that the host handed over bytes that do not encode a value of
    /// that type; the invocation has to end then.
    pub fn caller(&mut self) -> (outcome: Result<AccountId, Malformed>)
        requires
            old(self).flags().permits(Operation::GetProperty),
        ensures
            final(self).flags() == old(self).flags().after(Operation::GetProperty),
            is_owed_value(final(self).scratch(), outcome),
    {
        self.instance.caller(&mut self.env)
    }

    /// Returns the value that was transferred with the call.
    ///
    /// `Err` means that the host handed over bytes that do not encode a value of
    /// that type; the invocation has to end then.
    pub fn transferred_balance(&mut self) -> (outcome: Result<Balance, Malformed>)
        requires
            old(self).flags().permits(Operation::GetProperty),
        ensures
            final(self).flags() == old(self).flags().after(Operation::GetProperty),
            is_owed_value(final(self).scratch(), outcome),
    {
        self.instance.transferred_balance(&mut self.env)
    }

    /// Returns the current price of gas.
    ///
    /// `Err` means that the host handed over bytes that do not encode a value of
    /// that type; the invocation has to end then.
    pub fn gas_price(&mut self) -> (outcome: Result<Balance, Malformed>)
        requires
            old(self).flags().permits(Operation::GetProperty),
        ensures
            final(self).flags() == old(self).flags().after(Operation::GetProperty),
            is_owed_value(final(self).scratch(), outcome),
    {
        self.instance.gas_price(&mut self.env)
    }

    /// Returns the gas that is left for the execution.
    ///
    /// `Err` means that the host handed over bytes that do not encode a value of
    /// that type; the invocation has to end then.
    pub fn gas_left(&mut self) -> (outcome: Result<Balance, Malformed>)
        requires
            old(self).flags().permits(Operation::GetProperty),
        ensures
            final(self).flags() == old(self).flags().after(Operation::GetProperty),
            is_owed_value(final(self).scratch(), outcome),
    {
        self.instance.gas_left(&mut self.env)
    }

    /// Returns the time of the current block, in milliseconds.
    ///
    /// `Err` means that the host handed over bytes that do not encode a value of
    /// that type; the invocation has to end then.
    pub fn now_in_ms(&mut self) -> (outcome: Result<Moment, Malformed>)
        requires
            old(self).flags().permits(Operation::GetProperty),
        ensures
            final(self).flags() == old(self).flags().after(Operation::GetProperty),
            is_owed_value(final(self).scratch(), outcome),
    {
        self.instance.now_in_ms(&mut self.env)
    }

    /// Returns the address of the executed program.
    ///
    /// `Err` means that the host handed over bytes that do not encode a value of
    /// that type; the invocation has to end then.
    pub fn address(&mut self) -> (outcome: Result<AccountId, Malformed>)
        requires
            old(self).flags().permits(Operation::GetProperty),
        ensures
            final(self).flags() == old(self).flags().after(Operation::GetProperty),
            is_owed_value(final(self).scratch(), outcome),
    {
        self.instance.address(&mut self.env)
    }

    /// Returns the balance of the executed program.
    ///
    /// `Err` means that the host handed over bytes that do not encode a value of
    /// that type; the invocation has to end then.
    pub fn balance(&mut self) -> (outcome: Result<Balance, Malformed>)
        requires
            old(self).flags().permits(Operation::GetProperty),
        ensures
            final(self).flags() == old(self).flags().after(Operation::GetProperty),
            is_owed_value(final(self).scratch(), outcome),
    {
        self.instance.balance(&mut self.env)
    }

    /// Returns the rent allowance of the executed program.
    ///
    /// `Err` means that the host handed over bytes that do not encode a value of
    /// that type; the invocation has to end then.
    pub fn rent_allowance(&mut self) -> (outcome: Result<Balance, Malformed>)
        requires
            old(self).flags().permits(Operation::GetProperty),
        ensures
            final(self).flags() == old(self).flags().after(Operation::GetProperty),
            is_owed_value(final(self).scratch(), outcome),
    {
        self.instance.rent_allowance(&mut self.env)
    }

    /// Returns the number of the current block.
    ///
    /// `Err` means that the host handed over bytes that do not encode a value of
    /// that type; the invocation has to end then.
    pub fn block_number(&mut self) -> (outcome: Result<BlockNumber, Malformed>)
        requires
            old(self).flags().permits(Operation::GetProperty),
        ensures
            final(self).flags() == old(self).flags().after(Operation::GetProperty),
            is_owed_value(final(self).scratch(), outcome),
    {
        self.instance.block_number(&mut self.env)
    }

    /// Returns the least balance that an account may hold.
    ///
    /// `Err` means that the host handed over bytes that do not encode a value of
    /// that type; the invocation has to end then.
    pub fn minimum_balance(&mut self) -> (outcome: Result<Balance, Malformed>)
        requires
            old(self).flags().permits(Operation::GetProperty),
        ensures
            final(self).flags() == old(self).flags().after(Operation::GetProperty),
            is_owed_value(final(self).scratch(), outcome),
    {
        self.instance.minimum_balance(&mut self.env)
    }

    /// Fetches one of the ten properties that are plain values, and decodes
    /// what the host hands over into the type of that property.
    ///
    /// `Err` means that the host handed over bytes that do not encode a value of
    /// that type; the invocation has to end then.
    pub fn get_property(
        &mut self,
        property: Property,
    ) -> (outcome: Result<PropertyValue, Malformed>)
        requires
            property != Property::Input,
            old(self).flags().permits(Operation::GetProperty),
        ensures
            final(self).flags() == old(self).flags().after(Operation::GetProperty),
            is_property_value(property, final(self).scratch(), outcome),
    {
        self.instance.get_property(&mut self.env, property)
    }

    /// Emits an event with the given topics and data.
    pub fn emit_event<E: Encode>(&mut self, topics: &[crate::types::Hash], event: &E)
        requires
            old(self).flags().permits(Operation::EmitEvent),
        ensures
            final(self).flags() == old(self).flags(),
            final(self).scratch() == event.encoding(),
    {
        self.instance.emit_event(&mut self.env, topics, event)
    }

    /// Sets a property to a value of its type. Only the rent allowance can
    /// be set.
    pub fn set_property(&mut self, property: Property, value: PropertyValue)
        requires
            property.is_settable(),
            value.kind() == property.kind(),
            old(self).flags().permits(Operation::SetProperty),
        ensures
            final(self).flags() == old(self).flags().after(Operation::SetProperty),
            final(self).scratch() == value.encoding(),
    {
        self.instance.set_property(&mut self.env, property, value)
    }

    /// Sets the rent allowance of the executed program.
    pub fn set_rent_allowance(&mut self, new_value: Balance)
        requires
            old(self).flags().permits(Operation::SetProperty),
        ensures
            final(self).flags() == old(self).flags().after(Operation::SetProperty),
            final(self).scratch() == new_value.encoding(),
    {
        self.instance.set_rent_allowance(&mut self.env, new_value)
    }

    /// Writes the value to the program's storage under the given key.
    pub fn set_contract_storage<V: Encode>(&mut self, key: Key, value: &V)
        requires
            old(self).flags().permits(Operation::SetStorage),
        ensures
            final(self).flags() == old(self).flags(),
            final(self).scratch() == value.encoding(),
    {
        self.instance.set_contract_storage(&mut self.env, key, value)
    }

    /// Reads the value that the program's storage holds under the given key.
    ///
    /// Fails with `NotFound` where there is no entry, and with `Decode` where
    /// the entry does not hold the encoding of a `V`.
    pub fn get_contract_storage<V: Decode>(&mut self, key: Key) -> (outcome: Result<V, EnvError>)
        requires
            old(self).flags().permits(Operation::GetStorage),
        ensures
            final(self).flags() == old(self).flags(),
            exists|found: bool| is_storage_value(found, final(self).scratch(), outcome),
    {
        let outcome = self.instance.get_contract_storage(&mut self.env, key);
        assert(self.scratch() == self.instance.scratch());
        outcome
    }

    /// Removes the entry that the program's storage holds under the given key.
    pub fn clear_contract_storage(&mut self, key: Key)
        requires
            old(self).flags().permits(Operation::ClearStorage),
        ensures
            final(self).flags() == old(self).flags(),
            final(self).scratch() == Seq::<u8>::empty(),
    {
        self.instance.clear_contract_storage(&mut self.env, key)
    }

    /// Calls another program for its effects. The outcome is the host's answer.
    pub fn invoke_contract(&mut self, call_data: &CallParams<()>) -> (outcome: Result<(), EnvError>)
        requires
            old(self).flags().permits(Operation::Invoke),
        ensures
            final(self).flags() == old(self).flags(),
            exists|answer: Result<(), CallError>| outcome == crate::env::call_answer(answer),
    {
        self.instance.invoke_contract(&mut self.env, call_data)
    }

    /// Calls another program and decodes what it returns.
    ///
    /// The outcome is the host's failure where the call failed; else the value
    /// whose encoding came back, or `Decode` where no `R` has that encoding.
    pub fn eval_contract<R: Decode>(
        &mut self,
        call_data: &CallParams<ReturnType<R>>,
    ) -> (outcome: Result<R, EnvError>)
        requires
            old(self).flags().permits(Operation::Evaluate),
        ensures
            final(self).flags() == old(self).flags(),
            exists|answer: Result<(), CallError>|
                is_call_result(crate::env::call_answer(answer), final(self).scratch(), outcome),
    {
        let outcome = self.instance.eval_contract(&mut self.env, call_data);
        assert(self.scratch() == self.instance.scratch());
        outcome
    }

    /// Creates another program and decodes its address.
    ///
    /// Where the host reports that the instantiation failed, the error is the
    /// host's. Where it succeeded, the result is the address whose encoding came
    /// back, or `Decode` where what came back is no address.
    pub fn create_contract(
        &mut self,
        params: &CreateParams,
    ) -> (outcome: Result<AccountId, EnvError>)
        requires
            old(self).flags().permits(Operation::Instantiate),
        ensures
            final(self).flags() == old(self).flags(),
            exists|answer: Result<(), CreateError>|
                is_call_result(crate::env::create_answer(answer), final(self).scratch(), outcome),
    {
        let outcome = self.instance.create_contract(&mut self.env, params);
        assert(self.scratch() == self.instance.scratch());
        outcome
    }

    /// Takes the input of the invocation: the selector and the encoded
    /// arguments.
    ///
    /// This can be done once, and only before anything else has interacted with
    /// the host. `Err` means that the host handed over fewer than the four bytes
    /// of a selector; the invocation has to end then.
    pub fn input(&mut self) -> (outcome: Result<CallData, Malformed>)
        requires
            old(self).flags().permits(Operation::ReadInput),
        ensures
            final(self).flags() == old(self).flags().after(Operation::ReadInput),
            match outcome {
                Ok(call_data) => call_data@ == final(self).scratch() && call_data.well_formed(),
                Err(_) => final(self).scratch().len() < 4,
            },
    {
        self.instance.input(&mut self.env)
    }

    /// Hands the result of the invocation to the host.
    ///
    /// This is the last thing that an invocation does: after it, only printing
    /// is permitted.
    pub fn output<R: Encode>(&mut self, return_value: &R)
        requires
            old(self).flags().permits(Operation::WriteOutput),
        ensures
            final(self).flags() == old(self).flags().after(Operation::WriteOutput),
            final(self).scratch() == return_value.encoding(),
    {
        self.instance.output(&mut self.env, return_value)
    }

    /// Asks the host for a random hash, salted with `subject`.
    ///
    /// `Err` means that the host handed over bytes that are no hash; the
    /// invocation has to end then.
    pub fn random(&mut self, subject: &[u8]) -> (outcome: Result<crate::types::Hash, Malformed>)
        requires
            old(self).flags().permits(Operation::Random),
        ensures
            final(self).flags() == old(self).flags().after(Operation::Random),
            is_owed_value(final(self).scratch(), outcome),
    {
        self.instance.random(&mut self.env, subject)
    }

    /// Writes `content` to the diagnostic log. This is always permitted and
    /// changes nothing.
    pub fn println(&mut self, content: &str)
        ensures
            final(self).flags() == old(self).flags(),
            final(self).scratch() == old(self).scratch(),
    {
        self.instance.println(&mut self.env, content)
    }

    /// Reads the value that the host's own storage holds under the given key.
    ///
    /// Fails with `NotFound` where there is no entry, and with `Decode` where
    /// the entry does not hold the encoding of a `V`.
    pub fn get_runtime_storage<V: Decode>(&mut self, key: &[u8]) -> (outcome: Result<V, EnvError>)
        requires
            old(self).flags().permits(Operation::GetRuntimeStorage),
        ensures
            final(self).flags() == old(self).flags(),
            exists|found: bool| is_storage_value(found, final(self).scratch(), outcome),
    {
        let outcome = self.instance.get_runtime_storage(&mut self.env, key);
        assert(self.scratch() == self.instance.scratch());
        outcome
    }
}

} // verus!
