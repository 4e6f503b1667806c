use vstd::prelude::*;

verus! {

/// Identifies an account in the ledger and in the counters.
pub type AccountId = String;

/// An amount of funds held by an account.
pub type Balance = u128;

/// How many actions an account has taken.
pub type Nonce = u32;

/// The position of the current block in the chain.
pub type BlockNumber = u32;

} // verus!
