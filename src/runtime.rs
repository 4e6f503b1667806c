use crate::balances;
use crate::system;
use crate::system::SystemState;
use crate::types::Balance;
use vstd::prelude::*;

verus! {

/// The whole state: the ledger and the counters, side by side. Callers
/// work on each part directly; the two never consult each other.
#[derive(Debug)]
pub struct Runtime {
    pub balances: balances::Pallet,
    pub system: system::Pallet,
}

impl Runtime {
    /// An empty ledger and counters at zero.
    pub fn new() -> (r: Self)
        ensures
            r.balances@ == Map::<Seq<char>, Balance>::empty(),
            r.system@ == SystemState::initial(),
    {
        Runtime { balances: balances::Pallet::new(), system: system::Pallet::new() }
    }
}

} // verus!
