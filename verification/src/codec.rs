//! Encoding and decoding of the values that cross the boundary.
//!
//! A type says with [`Encode::encoding`] which bytes stand for each of its
//! values. Decoding is specified as the inverse of that: it yields a value
//! whose encoding is the input, and fails only where there is none.

use crate::endian::{
    le_bytes, lemma_le_bytes_injective, lemma_le_bytes_len, lemma_le_bytes_of_le_value,
    lemma_pow256_widths,
};
use crate::scale;
use crate::types::{AccountId, Encoded};
use vstd::prelude::*;
use vstd::slice::slice_to_vec;

verus! {

/// A value that can be written out as bytes.
pub trait Encode {
    /// The bytes that stand for `self`.
    spec fn encoding(&self) -> Seq<u8>;

    /// Appends the encoding of `self` to `dest`.
    fn encode_to(&self, dest: &mut Vec<u8>)
        ensures
            final(dest)@ == old(dest)@ + self.encoding(),
    ;
}

/// A value that can be read back from its encoding.
pub trait Decode: Encode + Sized {
    /// Reads a value from `bytes`, all of them.
    fn decode(bytes: &[u8]) -> (decoded: Option<Self>)
        ensures
            decodes(bytes@, decoded),
    ;
}

/// What decoding owes: a value whose encoding is `bytes`, or nothing where
/// no value of the type has that encoding.
pub open spec fn decodes<V: Encode>(bytes: Seq<u8>, decoded: Option<V>) -> bool {
    match decoded {
        Some(value) => value.encoding() == bytes,
        None => forall|value: V| #[trigger] value.encoding() != bytes,
    }
}

impl Encode for u32 {
    open spec fn encoding(&self) -> Seq<u8> {
        le_bytes(*self as nat, 4)
    }

    fn encode_to(&self, dest: &mut Vec<u8>) {
        scale::encode_u32(*self, dest)
    }
}

impl Decode for u32 {
    fn decode(bytes: &[u8]) -> (decoded: Option<u32>)
        ensures
            decoded is Some <==> bytes@.len() == 4,
    {
        match scale::decode_u32(bytes) {
            Ok(value) => {
                proof {
                    lemma_le_bytes_of_le_value(bytes@);
                }
                Some(value)
            },
            Err(_) => {
                proof {
                    assert forall|value: u32| #[trigger] value.encoding() != bytes@ by {
                        lemma_le_bytes_len(value as nat, 4);
                    }
                }
                None
            },
        }
    }
}

impl Encode for u64 {
    open spec fn encoding(&self) -> Seq<u8> {
        le_bytes(*self as nat, 8)
    }

    fn encode_to(&self, dest: &mut Vec<u8>) {
        scale::encode_u64(*self, dest)
    }
}

impl Decode for u64 {
    fn decode(bytes: &[u8]) -> (decoded: Option<u64>)
        ensures
            decoded is Some <==> bytes@.len() == 8,
    {
        match scale::decode_u64(bytes) {
            Ok(value) => {
                proof {
                    lemma_le_bytes_of_le_value(bytes@);
                }
                Some(value)
            },
            Err(_) => {
                proof {
                    assert forall|value: u64| #[trigger] value.encoding() != bytes@ by {
                        lemma_le_bytes_len(value as nat, 8);
                    }
                }
                None
            },
        }
    }
}

impl Encode for u128 {
    open spec fn encoding(&self) -> Seq<u8> {
        le_bytes(*self as nat, 16)
    }

    fn encode_to(&self, dest: &mut Vec<u8>) {
        scale::encode_u128(*self, dest)
    }
}

impl Decode for u128 {
    fn decode(bytes: &[u8]) -> (decoded: Option<u128>)
        ensures
            decoded is Some <==> bytes@.len() == 16,
    {
        match scale::decode_u128(bytes) {
            Ok(value) => {
                proof {
                    lemma_le_bytes_of_le_value(bytes@);
                }
                Some(value)
            },
            Err(_) => {
                proof {
                    assert forall|value: u128| #[trigger] value.encoding() != bytes@ by {
                        lemma_le_bytes_len(value as nat, 16);
                    }
                }
                None
            },
        }
    }
}

impl Encode for AccountId {
    open spec fn encoding(&self) -> Seq<u8> {
        self.0@
    }

    fn encode_to(&self, dest: &mut Vec<u8>) {
        scale::encode_bytes32(&self.0, dest)
    }
}

impl Decode for AccountId {
    fn decode(bytes: &[u8]) -> (decoded: Option<AccountId>)
        ensures
            decoded is Some <==> bytes@.len() == 32,
    {
        match scale::decode_bytes32(bytes) {
            Ok(value) => Some(AccountId(value)),
            Err(_) => None,
        }
    }
}

impl Encode for crate::types::Hash {
    open spec fn encoding(&self) -> Seq<u8> {
        self.0@
    }

    fn encode_to(&self, dest: &mut Vec<u8>) {
        scale::encode_bytes32(&self.0, dest)
    }
}

impl Decode for crate::types::Hash {
    fn decode(bytes: &[u8]) -> (decoded: Option<crate::types::Hash>)
        ensures
            decoded is Some <==> bytes@.len() == 32,
    {
        match scale::decode_bytes32(bytes) {
            Ok(value) => Some(crate::types::Hash(value)),
            Err(_) => None,
        }
    }
}

impl Encode for Encoded {
    open spec fn encoding(&self) -> Seq<u8> {
        self.0@
    }

    fn encode_to(&self, dest: &mut Vec<u8>) {
        dest.extend_from_slice(self.0.as_slice());
    }
}

impl Decode for Encoded {
    fn decode(bytes: &[u8]) -> (decoded: Option<Encoded>)
        ensures
            decoded is Some,
    {
        Some(Encoded(slice_to_vec(bytes)))
    }
}

/// A number keeps its value through encoding and decoding.
pub proof fn lemma_u32_round_trip(value: u32, decoded: Option<u32>)
    requires
        decodes(value.encoding(), decoded),
    ensures
        decoded == Some(value),
{
    lemma_pow256_widths();
    match decoded {
        Some(other) => lemma_le_bytes_injective(value as nat, other as nat, 4),
        None => assert(value.encoding() != value.encoding()),
    }
}

/// A number keeps its value through encoding and decoding.
pub proof fn lemma_u64_round_trip(value: u64, decoded: Option<u64>)
    requires
        decodes(value.encoding(), decoded),
    ensures
        decoded == Some(value),
{
    lemma_pow256_widths();
    match decoded {
        Some(other) => lemma_le_bytes_injective(value as nat, other as nat, 8),
        None => assert(value.encoding() != value.encoding()),
    }
}

/// A number keeps its value through encoding and decoding.
pub proof fn lemma_u128_round_trip(value: u128, decoded: Option<u128>)
    requires
        decodes(value.encoding(), decoded),
    ensures
        decoded == Some(value),
{
    lemma_pow256_widths();
    match decoded {
        Some(other) => lemma_le_bytes_injective(value as nat, other as nat, 16),
        None => assert(value.encoding() != value.encoding()),
    }
}

} // verus!
