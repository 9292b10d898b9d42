//! The calls into `parity_scale_codec`, each with the contract that the rest
//! of the crate relies on. Verus takes these contracts on trust.

use crate::endian::{le_bytes, le_value};
use parity_scale_codec::{DecodeAll, Encode};
use vstd::prelude::*;

verus! {

/// `parity_scale_codec::Error`: why a decoding failed. Nothing is known of its contents.
#[verifier::external_type_specification]
#[verifier::external_body]
pub struct ExError(parity_scale_codec::Error);

/// `Encode::encode_to` of `u32` with a byte vector as output: appends the
/// four bytes of `value`, least significant first, and leaves what `dest`
/// held before in place.
#[verifier::external_body]
pub(crate) fn encode_u32(value: u32, dest: &mut Vec<u8>)
    ensures
        final(dest)@ == old(dest)@ + le_bytes(value as nat, 4),
{
    value.encode_to(dest)
}

/// `Encode::encode_to` of `u64` with a byte vector as output: appends the
/// eight bytes of `value`, least significant first.
#[verifier::external_body]
pub(crate) fn encode_u64(value: u64, dest: &mut Vec<u8>)
    ensures
        final(dest)@ == old(dest)@ + le_bytes(value as nat, 8),
{
    value.encode_to(dest)
}

/// `Encode::encode_to` of `u128` with a byte vector as output: appends the
/// sixteen bytes of `value`, least significant first.
#[verifier::external_body]
pub(crate) fn encode_u128(value: u128, dest: &mut Vec<u8>)
    ensures
        final(dest)@ == old(dest)@ + le_bytes(value as nat, 16),
{
    value.encode_to(dest)
}

/// `Encode::encode_to` of `[u8; 32]` with a byte vector as output: appends
/// the thirty-two bytes as they are, without a length in front.
#[verifier::external_body]
pub(crate) fn encode_bytes32(value: &[u8; 32], dest: &mut Vec<u8>)
    ensures
        final(dest)@ == old(dest)@ + value@,
{
    value.encode_to(dest)
}

/// `DecodeAll::decode_all` of `u32`: succeeds on exactly four bytes, and then
/// gives the number that they spell, least significant byte first. Fewer
/// bytes, or bytes left over, are an error.
#[verifier::external_body]
pub(crate) fn decode_u32(bytes: &[u8]) -> (decoded: Result<u32, parity_scale_codec::Error>)
    ensures
        decoded is Ok <==> bytes@.len() == 4,
        decoded matches Ok(value) ==> value as nat == le_value(bytes@),
{
    let mut input = bytes;
    u32::decode_all(&mut input)
}

/// `DecodeAll::decode_all` of `u64`: succeeds on exactly eight bytes, and
/// then gives the number that they spell, least significant byte first.
#[verifier::external_body]
pub(crate) fn decode_u64(bytes: &[u8]) -> (decoded: Result<u64, parity_scale_codec::Error>)
    ensures
        decoded is Ok <==> bytes@.len() == 8,
        decoded matches Ok(value) ==> value as nat == le_value(bytes@),
{
    let mut input = bytes;
    u64::decode_all(&mut input)
}

/// `DecodeAll::decode_all` of `u128`: succeeds on exactly sixteen bytes, and
/// then gives the number that they spell, least significant byte first.
#[verifier::external_body]
pub(crate) fn decode_u128(bytes: &[u8]) -> (decoded: Result<u128, parity_scale_codec::Error>)
    ensures
        decoded is Ok <==> bytes@.len() == 16,
        decoded matches Ok(value) ==> value as nat == le_value(bytes@),
{
    let mut input = bytes;
    u128::decode_all(&mut input)
}

/// `DecodeAll::decode_all` of `[u8; 32]`: succeeds on exactly thirty-two
/// bytes, and then gives those bytes.
#[verifier::external_body]
pub(crate) fn decode_bytes32(bytes: &[u8]) -> (decoded: Result<
    [u8; 32],
    parity_scale_codec::Error,
>)
    ensures
        decoded is Ok <==> bytes@.len() == 32,
        decoded matches Ok(value) ==> value@ == bytes@,
{
    let mut input = bytes;
    <[u8; 32]>::decode_all(&mut input)
}

} // verus!
