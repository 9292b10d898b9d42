//! The instance through which every operation reaches the host.

use crate::call::{CallData, CallParams, CreateParams, ReturnType};
use crate::codec::{Decode, Encode};
use crate::endian::lemma_le_bytes_len;
use crate::env::{
    call_result, is_call_result, is_owed_value, is_storage_value, owed_value, storage_value, Env,
};
use crate::error::{CallError, CreateError, EnvError, Malformed};
use crate::property::{is_property_value, property_value, Property, PropertyValue};
use crate::protocol::{Flags, Operation};
use crate::types::{AccountId, Balance, BlockNumber, Key, Moment};
use vstd::prelude::*;

verus! {

/// The state of one invocation at the boundary: the scratch buffer, in which
/// whatever crosses the boundary is staged, and the two flags of the
/// protocol.
///
/// One instance is made when an invocation starts, is handed by exclusive
/// reference to every operation, and is dropped when the invocation ends.
pub struct EnvInstance {
    /// Reused by every operation, so that none has to allocate.
    buffer: Vec<u8>,
    /// False as long as nothing has interacted with the host.
    has_interacted: bool,
    /// False as long as the output has not been written.
    has_returned_value: bool,
}

impl EnvInstance {
    /// The flags of the protocol.
    pub closed spec fn spec_flags(&self) -> Flags {
        Flags { has_interacted: self.has_interacted, has_returned_value: self.has_returned_value }
    }

    /// What the scratch buffer holds: the bytes that the last operation
    /// handed to the host, or those that the host handed back.
    pub closed spec fn scratch(&self) -> Seq<u8> {
        self.buffer@
    }

    /// The instance with which an invocation starts: nothing staged, nothing
    /// done.
    pub fn new() -> (instance: EnvInstance)
        ensures
            instance.flags() == Flags::initial(),
            instance.scratch() == Seq::<u8>::empty(),
    {
        EnvInstance { buffer: Vec::new(), has_interacted: false, has_returned_value: false }
    }

    /// The flags of the protocol.
    #[verifier::when_used_as_spec(spec_flags)]
    pub fn flags(&self) -> (flags: Flags)
        ensures
            flags == self.spec_flags(),
    {
        Flags { has_interacted: self.has_interacted, has_returned_value: self.has_returned_value }
    }

    /// What the scratch buffer holds.
    pub fn scratch_bytes(&self) -> (bytes: &[u8])
        ensures
            bytes@ == self.scratch(),
    {
        self.buffer.as_slice()
    }

    /// Records that `op` is made and empties the scratch buffer for it.
    fn begin(&mut self, op: Operation)
        requires
            old(self).flags().permits(op),
        ensures
            final(self).flags() == old(self).flags().after(op),
            final(self).scratch() == Seq::<u8>::empty(),
    {
        let flags = self.flags().after(op);
        self.has_interacted = flags.has_interacted;
        self.has_returned_value = flags.has_returned_value;
        self.buffer.clear();
    }

    /// Fetches one of the ten properties that are plain values, and decodes
    /// what the host hands over into the type of that property.
    ///
    /// `Err` means that the host handed over bytes that do not encode a
    /// value of that type. The invocation has to end then.
    pub fn get_property<T: Env>(&mut self, env: &mut T, property: Property) -> (outcome: Result<
        PropertyValue,
        Malformed,
    >)
        requires
            property != Property::Input,
            old(self).flags().permits(Operation::GetProperty),
        ensures
            final(self).flags() == old(self).flags().after(Operation::GetProperty),
            is_property_value(property, final(self).scratch(), outcome),
    {
        self.begin(Operation::GetProperty);
        env.get_property(property, &mut self.buffer);
        property_value(property, self.buffer.as_slice())
    }

    /// Fetches a property and decodes it into `V`.
    fn fetch<T: Env, V: Decode>(&mut self, env: &mut T, property: Property) -> (outcome: Result<
        V,
        Malformed,
    >)
        requires
            old(self).flags().permits(Operation::GetProperty),
        ensures
            final(self).flags() == old(self).flags().after(Operation::GetProperty),
            is_owed_value(final(self).scratch(), outcome),
    {
        self.begin(Operation::GetProperty);
        env.get_property(property, &mut self.buffer);
        owed_value(self.buffer.as_slice())
    }

    /// Returns the address of the caller of the executed program.
    ///
    /// `Err` means that the host handed over bytes that do not encode a value of
    /// that type; the invocation has to end then.
    pub fn caller<T: Env>(&mut self, env: &mut T) -> (outcome: Result<AccountId, Malformed>)
        requires
            old(self).flags().permits(Operation::GetProperty),
        ensures
            final(self).flags() == old(self).flags().after(Operation::GetProperty),
            is_owed_value(final(self).scratch(), outcome),
    {
        self.fetch(env, Property::Caller)
    }

    /// Returns the value that was transferred with the call.
    ///
    /// `Err` means that the host handed over bytes that do not encode a value of
    /// that type; the invocation has to end then.
    pub fn transferred_balance<T: Env>(
        &mut self,
        env: &mut T,
    ) -> (outcome: Result<Balance, Malformed>)
        requires
            old(self).flags().permits(Operation::GetProperty),
        ensures
            final(self).flags() == old(self).flags().after(Operation::GetProperty),
            is_owed_value(final(self).scratch(), outcome),
    {
        self.fetch(env, Property::TransferredBalance)
    }

    /// Returns the current price of gas.
    ///
    /// `Err` means that the host handed over bytes that do not encode a value of
    /// that type; the invocation has to end then.
    pub fn gas_price<T: Env>(&mut self, env: &mut T) -> (outcome: Result<Balance, Malformed>)
        requires
            old(self).flags().permits(Operation::GetProperty),
        ensures
            final(self).flags() == old(self).flags().after(Operation::GetProperty),
            is_owed_value(final(self).scratch(), outcome),
    {
        self.fetch(env, Property::GasPrice)
    }

    /// Returns the gas that is left for the execution.
    ///
    /// `Err` means that the host handed over bytes that do not encode a value of
    /// that type; the invocation has to end then.
    pub fn gas_left<T: Env>(&mut self, env: &mut T) -> (outcome: Result<Balance, Malformed>)
        requires
            old(self).flags().permits(Operation::GetProperty),
        ensures
            final(self).flags() == old(self).flags().after(Operation::GetProperty),
            is_owed_value(final(self).scratch(), outcome),
    {
        self.fetch(env, Property::GasLeft)
    }

    /// Returns the time of the current block, in milliseconds.
    ///
    /// `Err` means that the host handed over bytes that do not encode a value of
    /// that type; the invocation has to end then.
    pub fn now_in_ms<T: Env>(&mut self, env: &mut T) -> (outcome: Result<Moment, Malformed>)
        requires
            old(self).flags().permits(Operation::GetProperty),
        ensures
            final(self).flags() == old(self).flags().after(Operation::GetProperty),
            is_owed_value(final(self).scratch(), outcome),
    {
        self.fetch(env, Property::NowInMs)
    }

    /// Returns the address of the executed program.
    ///
    /// `Err` means that the host handed over bytes that do not encode a value of
    /// that type; the invocation has to end then.
    pub fn address<T: Env>(&mut self, env: &mut T) -> (outcome: Result<AccountId, Malformed>)
        requires
            old(self).flags().permits(Operation::GetProperty),
        ensures
            final(self).flags() == old(self).flags().after(Operation::GetProperty),
            is_owed_value(final(self).scratch(), outcome),
    {
        self.fetch(env, Property::Address)
    }

    /// Returns the balance of the executed program.
    ///
    /// `Err` means that the host handed over bytes that do not encode a value of
    /// that type; the invocation has to end then.
    pub fn balance<T: Env>(&mut self, env: &mut T) -> (outcome: Result<Balance, Malformed>)
        requires
            old(self).flags().permits(Operation::GetProperty),
        ensures
            final(self).flags() == old(self).flags().after(Operation::GetProperty),
            is_owed_value(final(self).scratch(), outcome),
    {
        self.fetch(env, Property::Balance)
    }

    /// Returns the rent allowance of the executed program.
    ///
    /// `Err` means that the host handed over bytes that do not encode a value of
    /// that type; the invocation has to end then.
    pub fn rent_allowance<T: Env>(&mut self, env: &mut T) -> (outcome: Result<Balance, Malformed>)
        requires
            old(self).flags().permits(Operation::GetProperty),
        ensures
            final(self).flags() == old(self).flags().after(Operation::GetProperty),
            is_owed_value(final(self).scratch(), outcome),
    {
        self.fetch(env, Property::RentAllowance)
    }

    /// Returns the number of the current block.
    ///
    /// `Err` means that the host handed over bytes that do not encode a value of
    /// that type; the invocation has to end then.
    pub fn block_number<T: Env>(&mut self, env: &mut T) -> (outcome: Result<BlockNumber, Malformed>)
        requires
            old(self).flags().permits(Operation::GetProperty),
        ensures
            final(self).flags() == old(self).flags().after(Operation::GetProperty),
            is_owed_value(final(self).scratch(), outcome),
    {
        self.fetch(env, Property::BlockNumber)
    }

    /// Returns the least balance that an account may hold.
    ///
    /// `Err` means that the host handed over bytes that do not encode a value of
    /// that type; the invocation has to end then.
    pub fn minimum_balance<T: Env>(&mut self, env: &mut T) -> (outcome: Result<Balance, Malformed>)
        requires
            old(self).flags().permits(Operation::GetProperty),
        ensures
            final(self).flags() == old(self).flags().after(Operation::GetProperty),
            is_owed_value(final(self).scratch(), outcome),
    {
        self.fetch(env, Property::MinimumBalance)
    }

    /// Sets a property to a value of its type. Only the rent allowance can
    /// be set.
    pub fn set_property<T: Env>(&mut self, env: &mut T, property: Property, value: PropertyValue)
        requires
            property.is_settable(),
            value.kind() == property.kind(),
            old(self).flags().permits(Operation::SetProperty),
        ensures
            final(self).flags() == old(self).flags().after(Operation::SetProperty),
            final(self).scratch() == value.encoding(),
    {
        self.begin(Operation::SetProperty);
        match value {
            PropertyValue::AccountId(id) => id.encode_to(&mut self.buffer),
            PropertyValue::Balance(balance) => balance.encode_to(&mut self.buffer),
            PropertyValue::Moment(moment) => moment.encode_to(&mut self.buffer),
            PropertyValue::BlockNumber(number) => number.encode_to(&mut self.buffer),
        }
        assert(self.buffer@ =~= value.encoding());
        proof {
            lemma_le_bytes_len(value->Balance_0 as nat, 16);
        }
        env.set_property(property, self.buffer.as_slice());
    }

    /// Sets the rent allowance of the executed program.
    pub fn set_rent_allowance<T: Env>(&mut self, env: &mut T, new_value: Balance)
        requires
            old(self).flags().permits(Operation::SetProperty),
        ensures
            final(self).flags() == old(self).flags().after(Operation::SetProperty),
            final(self).scratch() == new_value.encoding(),
    {
        self.set_property(env, Property::RentAllowance, PropertyValue::Balance(new_value))
    }

    /// Writes the value to the program's storage under the given key.
    pub fn set_contract_storage<T: Env, V: Encode>(&mut self, env: &mut T, key: Key, value: &V)
        requires
            old(self).flags().permits(Operation::SetStorage),
        ensures
            final(self).flags() == old(self).flags(),
            final(self).scratch() == value.encoding(),
    {
        self.begin(Operation::SetStorage);
        value.encode_to(&mut self.buffer);
        assert(self.buffer@ =~= value.encoding());
        env.set_contract_storage(&key, self.buffer.as_slice());
    }

    /// Reads the value that the program's storage holds under the given key.
    ///
    /// Fails with `NotFound` where there is no entry, and with `Decode` where
    /// the entry does not hold the encoding of a `V`.
    pub fn get_contract_storage<T: Env, V: Decode>(&mut self, env: &mut T, key: Key) -> (outcome:
        Result<V, EnvError>)
        requires
            old(self).flags().permits(Operation::GetStorage),
        ensures
            final(self).flags() == old(self).flags(),
            exists|found: bool| is_storage_value(found, final(self).scratch(), outcome),
    {
        self.begin(Operation::GetStorage);
        let found = env.get_contract_storage(&key, &mut self.buffer);
        let outcome = storage_value(found, self.buffer.as_slice());
        assert(is_storage_value(found, self.scratch(), outcome));
        outcome
    }

    /// Removes the entry that the program's storage holds under the given
    /// key.
    pub fn clear_contract_storage<T: Env>(&mut self, env: &mut T, key: Key)
        requires
            old(self).flags().permits(Operation::ClearStorage),
        ensures
            final(self).flags() == old(self).flags(),
            final(self).scratch() == Seq::<u8>::empty(),
    {
        self.begin(Operation::ClearStorage);
        env.clear_contract_storage(&key);
    }

    /// Calls another program for its effects. The outcome is the host's
    /// answer: success, or one of the failures that a call can end in.
    pub fn invoke_contract<T: Env>(&mut self, env: &mut T, call_data: &CallParams<()>) -> (outcome:
        Result<(), EnvError>)
        requires
            old(self).flags().permits(Operation::Invoke),
        ensures
            final(self).flags() == old(self).flags(),
            exists|answer: Result<(), CallError>| outcome == crate::env::call_answer(answer),
    {
        self.begin(Operation::Invoke);
        crate::env::call_answer(env.invoke_contract(&mut self.buffer, call_data))
    }

    /// Calls another program and decodes what it returns.
    ///
    /// The outcome is the host's failure where the call failed; else the value
    /// whose encoding came back, or `Decode` where no `R` has that encoding.
    pub fn eval_contract<T: Env, R: Decode>(
        &mut self,
        env: &mut T,
        call_data: &CallParams<ReturnType<R>>,
    ) -> (outcome: Result<R, EnvError>)
        requires
            old(self).flags().permits(Operation::Evaluate),
        ensures
            final(self).flags() == old(self).flags(),
            exists|answer: Result<(), CallError>|
                is_call_result(crate::env::call_answer(answer), final(self).scratch(), outcome),
    {
        self.begin(Operation::Evaluate);
        let answer = env.eval_contract(&mut self.buffer, call_data);
        let outcome = call_result(crate::env::call_answer(answer), self.buffer.as_slice());
        assert(is_call_result(crate::env::call_answer(answer), self.scratch(), outcome));
        outcome
    }

    /// Creates another program and decodes its address.
    ///
    /// Where the host reports that the instantiation failed, the error is
    /// the host's. Where it succeeded, the result is the address whose
    /// encoding came back, or `Decode` where what came back is no address.
    pub fn create_contract<T: Env>(&mut self, env: &mut T, params: &CreateParams) -> (outcome:
        Result<AccountId, EnvError>)
        requires
            old(self).flags().permits(Operation::Instantiate),
        ensures
            final(self).flags() == old(self).flags(),
            exists|answer: Result<(), CreateError>|
                is_call_result(crate::env::create_answer(answer), final(self).scratch(), outcome),
    {
        self.begin(Operation::Instantiate);
        let answer = env.create_contract(&mut self.buffer, params);
        let outcome = call_result(crate::env::create_answer(answer), self.buffer.as_slice());
        assert(is_call_result(crate::env::create_answer(answer), self.scratch(), outcome));
        outcome
    }

    /// Emits an event with the given topics and data.
    pub fn emit_event<T: Env, E: Encode>(
        &mut self,
        env: &mut T,
        topics: &[crate::types::Hash],
        event: &E,
    )
        requires
            old(self).flags().permits(Operation::EmitEvent),
        ensures
            final(self).flags() == old(self).flags(),
            final(self).scratch() == event.encoding(),
    {
        self.begin(Operation::EmitEvent);
        event.encode_to(&mut self.buffer);
        assert(self.buffer@ =~= event.encoding());
        env.emit_event(topics, self.buffer.as_slice());
    }

    /// Takes the input of the invocation: the selector and the encoded
    /// arguments.
    ///
    /// This can be done once, and only before anything else has interacted
    /// with the host. `Err` means that the host handed over fewer than the
    /// four bytes of a selector. The invocation has to end then.
    pub fn input<T: Env>(&mut self, env: &mut T) -> (outcome: Result<CallData, Malformed>)
        requires
            old(self).flags().permits(Operation::ReadInput),
        ensures
            final(self).flags() == old(self).flags().after(Operation::ReadInput),
            match outcome {
                Ok(call_data) => call_data@ == final(self).scratch() && call_data.well_formed(),
                Err(_) => final(self).scratch().len() < 4,
            },
    {
        self.begin(Operation::ReadInput);
        env.get_property(Property::Input, &mut self.buffer);
        match CallData::from_bytes(self.buffer.as_slice()) {
            Some(call_data) => Ok(call_data),
            None => Err(Malformed),
        }
    }

    /// Hands the result of the invocation to the host.
    ///
    /// This is the last thing that an invocation does: after it, only
    /// printing is permitted.
    pub fn output<T: Env, R: Encode>(&mut self, env: &mut T, return_value: &R)
        requires
            old(self).flags().permits(Operation::WriteOutput),
        ensures
            final(self).flags() == old(self).flags().after(Operation::WriteOutput),
            final(self).scratch() == return_value.encoding(),
    {
        self.begin(Operation::WriteOutput);
        return_value.encode_to(&mut self.buffer);
        assert(self.buffer@ =~= return_value.encoding());
        env.output(self.buffer.as_slice());
    }

    /// Asks the host for a random hash, salted with `subject`.
    ///
    /// `Err` means that the host handed over bytes that are no hash. The
    /// invocation has to end then.
    pub fn random<T: Env>(&mut self, env: &mut T, subject: &[u8]) -> (outcome: Result<
        crate::types::Hash,
        Malformed,
    >)
        requires
            old(self).flags().permits(Operation::Random),
        ensures
            final(self).flags() == old(self).flags().after(Operation::Random),
            is_owed_value(final(self).scratch(), outcome),
    {
        self.begin(Operation::Random);
        env.random(&mut self.buffer, subject);
        owed_value(self.buffer.as_slice())
    }

    /// Writes `content` to the diagnostic log. This is always permitted and
    /// leaves the instance as it is.
    pub fn println<T: Env>(&mut self, env: &mut T, content: &str)
        ensures
            final(self).flags() == old(self).flags(),
            final(self).scratch() == old(self).scratch(),
    {
        env.println(content);
    }

    /// Reads the value that the host's own storage holds under the given
    /// key.
    ///
    /// Fails with `NotFound` where there is no entry, and with `Decode` where
    /// the entry does not hold the encoding of a `V`.
    pub fn get_runtime_storage<T: Env, V: Decode>(&mut self, env: &mut T, key: &[u8]) -> (outcome:
        Result<V, EnvError>)
        requires
            old(self).flags().permits(Operation::GetRuntimeStorage),
        ensures
            final(self).flags() == old(self).flags(),
            exists|found: bool| is_storage_value(found, final(self).scratch(), outcome),
    {
        self.begin(Operation::GetRuntimeStorage);
        let found = env.get_runtime_storage(key, &mut self.buffer);
        let outcome = storage_value(found, self.buffer.as_slice());
        assert(is_storage_value(found, self.scratch(), outcome));
        outcome
    }
}

} // verus!
