//! Fixed-width identifiers. They are consumed as they are; equality and order go
//! byte by byte.

use vstd::prelude::*;

verus! {

/// Identifier of an object or of a published package.
#[derive(Clone, Copy, Debug, PartialEq, Eq, PartialOrd, Ord, Hash)]
pub struct ObjectID(pub [u8; 20]);

/// Version of an object.
#[derive(Clone, Copy, Debug, PartialEq, Eq, PartialOrd, Ord, Hash)]
pub struct SequenceNumber(pub u64);

/// Address of an account.
#[derive(Clone, Copy, Debug, PartialEq, Eq, PartialOrd, Ord, Hash)]
pub struct SuiAddress(pub [u8; 20]);

/// Digest of a transaction.
#[derive(Clone, Copy, Debug, PartialEq, Eq, PartialOrd, Ord, Hash)]
pub struct TransactionDigest(pub [u8; 32]);

/// Number of an epoch.
pub type EpochId = u64;

/// Number of a checkpoint.
pub type CheckpointSequenceNumber = u64;

} // verus!
