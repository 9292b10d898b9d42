//! The value types that cross the boundary.

use vstd::prelude::*;

verus! {

/// The address of an account or of a program.
#[derive(Clone, Copy, Debug, PartialEq, Eq)]
pub struct AccountId(pub [u8; 32]);

/// A hash: a code reference, an event topic, a random seed.
#[derive(Clone, Copy, Debug, PartialEq, Eq)]
pub struct Hash(pub [u8; 32]);

/// The key of an entry in the program's persistent storage.
#[derive(Clone, Copy, Debug, PartialEq, Eq)]
pub struct Key(pub [u8; 32]);

/// The fixed-width prefix that names the function a call is aimed at.
#[derive(Clone, Copy, Debug, PartialEq, Eq)]
pub struct Selector(pub [u8; 4]);

/// An amount of value: a balance, an endowment, a price.
pub type Balance = u128;

/// A point in time, in milliseconds.
pub type Moment = u64;

/// The number of a block.
pub type BlockNumber = u64;

/// Already encoded bytes, carried as they are.
#[derive(Debug, PartialEq, Eq)]
pub struct Encoded(pub Vec<u8>);

} // verus!
