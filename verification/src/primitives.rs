//! The plain values that the lifecycle hooks exchange.

use vstd::prelude::*;

/// What a hook reports of the resources it used. Weights are only ever added up.
pub use frame_support::weights::Weight;
/// Index of a session: a contiguous span of blocks sharing one validator set.
pub use sp_staking::SessionIndex;

verus! {

/// Identity of a validator: the bytes of its public key. Two identities are the same
/// validator exactly when their bytes are equal.
#[derive(Clone, Copy, PartialEq, Eq, Debug)]
pub struct ValidatorId(pub [u8; 32]);

/// Identifier of a para.
#[derive(Clone, Copy, PartialEq, Eq, Debug, Structural)]
pub struct Id(pub u32);

} // verus!
