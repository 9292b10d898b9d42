//! The properties of the execution that the host can be asked for.
//!
//! The set is closed: a property that is not listed here cannot be named,
//! let alone requested.

use crate::codec::Decode;
use crate::error::Malformed;
use crate::protocol::Operation;
use crate::types::{AccountId, Balance, BlockNumber, Moment};
use vstd::prelude::*;

verus! {

/// The name of a property.
#[derive(Clone, Copy, Debug, PartialEq, Eq, Structural)]
pub enum Property {
    /// The address of the caller.
    Caller,
    /// The value that was transferred with the call.
    TransferredBalance,
    /// The current price of gas.
    GasPrice,
    /// The gas that is left.
    GasLeft,
    /// The time of the current block.
    NowInMs,
    /// The address of the executed program.
    Address,
    /// The balance of the executed program.
    Balance,
    /// The rent allowance of the executed program.
    RentAllowance,
    /// The number of the current block.
    BlockNumber,
    /// The least balance that an account may hold.
    MinimumBalance,
    /// The raw input of the invocation.
    Input,
}

/// The type of a property's value.
#[derive(Clone, Copy, Debug, PartialEq, Eq, Structural)]
pub enum ValueKind {
    /// An address.
    AccountId,
    /// An amount of value.
    Balance,
    /// A point in time.
    Moment,
    /// The number of a block.
    BlockNumber,
    /// Raw bytes: a selector and arguments.
    Input,
}

/// The value of one of the ten properties that are plain values.
#[derive(Clone, Copy, Debug, PartialEq, Eq)]
pub enum PropertyValue {
    /// An address.
    AccountId(AccountId),
    /// An amount of value.
    Balance(Balance),
    /// A point in time.
    Moment(Moment),
    /// The number of a block.
    BlockNumber(BlockNumber),
}

impl Property {
    /// The type of the property's value.
    pub open spec fn spec_kind(self) -> ValueKind {
        match self {
            Property::Caller | Property::Address => ValueKind::AccountId,
            Property::TransferredBalance
            | Property::GasPrice
            | Property::GasLeft
            | Property::Balance
            | Property::RentAllowance
            | Property::MinimumBalance => ValueKind::Balance,
            Property::NowInMs => ValueKind::Moment,
            Property::BlockNumber => ValueKind::BlockNumber,
            Property::Input => ValueKind::Input,
        }
    }

    /// The type of the property's value.
    #[verifier::when_used_as_spec(spec_kind)]
    pub fn kind(self) -> (kind: ValueKind)
        ensures
            kind == self.spec_kind(),
    {
        match self {
            Property::Caller | Property::Address => ValueKind::AccountId,
            Property::TransferredBalance
            | Property::GasPrice
            | Property::GasLeft
            | Property::Balance
            | Property::RentAllowance
            | Property::MinimumBalance => ValueKind::Balance,
            Property::NowInMs => ValueKind::Moment,
            Property::BlockNumber => ValueKind::BlockNumber,
            Property::Input => ValueKind::Input,
        }
    }

    /// Whether the guest may set the property. Only the rent allowance can
    /// be set.
    pub open spec fn spec_is_settable(self) -> bool {
        self == Property::RentAllowance
    }

    /// Whether the guest may set the property.
    #[verifier::when_used_as_spec(spec_is_settable)]
    pub fn is_settable(self) -> (settable: bool)
        ensures
            settable == self.spec_is_settable(),
    {
        match self {
            Property::RentAllowance => true,
            _ => false,
        }
    }

    /// The operation by which the property is fetched: the input has one of
    /// its own, with rules of its own.
    pub open spec fn spec_fetched_by(self) -> Operation {
        if self == Property::Input {
            Operation::ReadInput
        } else {
            Operation::GetProperty
        }
    }

    /// The operation by which the property is fetched.
    #[verifier::when_used_as_spec(spec_fetched_by)]
    pub fn fetched_by(self) -> (op: Operation)
        ensures
            op == self.spec_fetched_by(),
    {
        match self {
            Property::Input => Operation::ReadInput,
            _ => Operation::GetProperty,
        }
    }
}

impl PropertyValue {
    /// The type of the value.
    pub open spec fn spec_kind(self) -> ValueKind {
        match self {
            PropertyValue::AccountId(_) => ValueKind::AccountId,
            PropertyValue::Balance(_) => ValueKind::Balance,
            PropertyValue::Moment(_) => ValueKind::Moment,
            PropertyValue::BlockNumber(_) => ValueKind::BlockNumber,
        }
    }

    /// The type of the value.
    #[verifier::when_used_as_spec(spec_kind)]
    pub fn kind(self) -> (kind: ValueKind)
        ensures
            kind == self.spec_kind(),
    {
        match self {
            PropertyValue::AccountId(_) => ValueKind::AccountId,
            PropertyValue::Balance(_) => ValueKind::Balance,
            PropertyValue::Moment(_) => ValueKind::Moment,
            PropertyValue::BlockNumber(_) => ValueKind::BlockNumber,
        }
    }

    /// The bytes that stand for the value.
    pub open spec fn encoding(self) -> Seq<u8> {
        match self {
            PropertyValue::AccountId(id) => crate::codec::Encode::encoding(&id),
            PropertyValue::Balance(balance) => crate::codec::Encode::encoding(&balance),
            PropertyValue::Moment(moment) => crate::codec::Encode::encoding(&moment),
            PropertyValue::BlockNumber(number) => crate::codec::Encode::encoding(&number),
        }
    }
}

/// What the host's answer to a request for `property` amounts to: a value
/// of the property's type whose encoding is `bytes`, or the verdict that
/// `bytes` is the encoding of no value of that type.
pub open spec fn is_property_value(
    property: Property,
    bytes: Seq<u8>,
    outcome: Result<PropertyValue, Malformed>,
) -> bool {
    match outcome {
        Ok(value) => value.kind() == property.kind() && value.encoding() == bytes,
        Err(_) => forall|value: PropertyValue|
            value.kind() == property.kind() ==> #[trigger] value.encoding() != bytes,
    }
}

/// Decodes the bytes that the host handed over for `property` into a value
/// of the property's type. The input is no plain value and has no decoding
/// here.
pub fn property_value(property: Property, bytes: &[u8]) -> (outcome: Result<
    PropertyValue,
    Malformed,
>)
    requires
        property != Property::Input,
    ensures
        is_property_value(property, bytes@, outcome),
        outcome is Ok <==> bytes@.len() == encoded_len(property.kind()),
{
    let decoded = match property.kind() {
        ValueKind::AccountId => match AccountId::decode(bytes) {
            Some(id) => Some(PropertyValue::AccountId(id)),
            None => None,
        },
        ValueKind::Balance => match u128::decode(bytes) {
            Some(balance) => Some(PropertyValue::Balance(balance)),
            None => None,
        },
        ValueKind::Moment => match u64::decode(bytes) {
            Some(moment) => Some(PropertyValue::Moment(moment)),
            None => None,
        },
        ValueKind::BlockNumber => match u64::decode(bytes) {
            Some(number) => Some(PropertyValue::BlockNumber(number)),
            None => None,
        },
        ValueKind::Input => None,
    };
    match decoded {
        Some(value) => Ok(value),
        None => Err(Malformed),
    }
}

/// The number of bytes in the encoding of a value of the given type. The
/// input has no fixed length; four bytes is the least that it takes.
pub open spec fn encoded_len(kind: ValueKind) -> nat {
    match kind {
        ValueKind::AccountId => 32,
        ValueKind::Balance => 16,
        ValueKind::Moment => 8,
        ValueKind::BlockNumber => 8,
        ValueKind::Input => 4,
    }
}

} // verus!
