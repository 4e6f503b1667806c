use crate::account_map::AccountMap;
use crate::types::{AccountId, BlockNumber, Nonce};
use vstd::prelude::*;

verus! {

/// What the counters hold: the block number and the nonce of each account
/// that has one.
pub struct SystemState {
    pub block_number: BlockNumber,
    pub nonces: Map<Seq<char>, Nonce>,
}

impl SystemState {
    /// Block zero, and no nonce.
    pub open spec fn initial() -> SystemState {
        SystemState { block_number: 0, nonces: Map::empty() }
    }

    /// The nonce of `account`: zero for an account that never acted.
    pub open spec fn nonce(self, account: Seq<char>) -> Nonce {
        if self.nonces.contains_key(account) {
            self.nonces[account]
        } else {
            0
        }
    }

    /// The state once the block number has gone up by one.
    pub open spec fn next_block(self) -> SystemState {
        SystemState { block_number: (self.block_number + 1) as BlockNumber, ..self }
    }

    /// The state once the nonce of `account` has gone up by one.
    pub open spec fn next_nonce(self, account: Seq<char>) -> SystemState {
        SystemState {
            nonces: self.nonces.insert(account, (self.nonce(account) + 1) as Nonce),
            ..self
        }
    }

    /// The state after `n` new blocks.
    pub open spec fn after_blocks(self, n: nat) -> SystemState
        decreases n,
    {
        if n == 0 {
            self
        } else {
            self.after_blocks((n - 1) as nat).next_block()
        }
    }

    /// The state after `account` has acted `n` times.
    pub open spec fn after_nonces(self, account: Seq<char>, n: nat) -> SystemState
        decreases n,
    {
        if n == 0 {
            self
        } else {
            self.after_nonces(account, (n - 1) as nat).next_nonce(account)
        }
    }
}

/// One operation on the counters, as their callers issue them.
pub enum SystemOp {
    IncBlockNumber,
    IncNonce(Seq<char>),
}

impl SystemOp {
    /// Whether the operation names `account`.
    pub open spec fn names(self, account: Seq<char>) -> bool {
        match self {
            SystemOp::IncBlockNumber => false,
            SystemOp::IncNonce(a) => a == account,
        }
    }

    /// The state after the operation.
    pub open spec fn apply(self, s: SystemState) -> SystemState {
        match self {
            SystemOp::IncBlockNumber => s.next_block(),
            SystemOp::IncNonce(a) => s.next_nonce(a),
        }
    }
}

/// The state after `ops`, applied in order to `s`.
pub open spec fn apply_all(s: SystemState, ops: Seq<SystemOp>) -> SystemState
    decreases ops.len(),
{
    if ops.len() == 0 {
        s
    } else {
        ops.last().apply(apply_all(s, ops.drop_last()))
    }
}

/// An account that no operation names has nonce zero, whatever was done
/// to the block number and to the other accounts since the start.
pub proof fn lemma_untouched_nonce_is_zero(ops: Seq<SystemOp>, account: Seq<char>)
    requires
        forall|i: int| 0 <= i < ops.len() ==> !(#[trigger] ops[i]).names(account),
    ensures
        apply_all(SystemState::initial(), ops).nonce(account) == 0,
    decreases ops.len(),
{
    if ops.len() > 0 {
        let rest = ops.drop_last();
        assert forall|i: int| 0 <= i < rest.len() implies !(#[trigger] rest[i]).names(account) by {
            assert(rest[i] == ops[i]);
        }
        lemma_untouched_nonce_is_zero(rest, account);
        assert(!ops[ops.len() - 1].names(account));
    }
}

/// From the start, `n` new blocks give block number `n`.
pub proof fn lemma_block_count(n: nat)
    requires
        n <= BlockNumber::MAX,
    ensures
        SystemState::initial().after_blocks(n).block_number == n,
    decreases n,
{
    if n > 0 {
        lemma_block_count((n - 1) as nat);
    }
}

/// From the start, `n` actions of `account` give it nonce `n`, and leave
/// the nonce of every other account at zero.
pub proof fn lemma_nonce_count(account: Seq<char>, other: Seq<char>, n: nat)
    requires
        n <= Nonce::MAX,
        other != account,
    ensures
        SystemState::initial().after_nonces(account, n).nonce(account) == n,
        SystemState::initial().after_nonces(account, n).nonce(other) == 0,
    decreases n,
{
    if n > 0 {
        lemma_nonce_count(account, other, (n - 1) as nat);
    }
}

/// The counters: the block number and the nonce of every account.
#[derive(Debug)]
pub struct Pallet {
    block_number: BlockNumber,
    nonce: AccountMap<Nonce>,
}

impl View for Pallet {
    type V = SystemState;

    closed spec fn view(&self) -> SystemState {
        SystemState { block_number: self.block_number, nonces: self.nonce@ }
    }
}

impl Pallet {
    /// Counters at block zero, with no nonce.
    pub fn new() -> (r: Self)
        ensures
            r@ == SystemState::initial(),
    {
        Pallet { block_number: 0, nonce: AccountMap::new() }
    }

    /// The current block number.
    pub fn block_number(&self) -> (r: BlockNumber)
        ensures
            r == self@.block_number,
    {
        self.block_number
    }

    /// The nonce of `account`, zero for an account that never acted.
    pub fn nonce(&self, account: &AccountId) -> (r: Nonce)
        ensures
            r == self@.nonce(account@),
    {
        match self.nonce.get(account) {
            Some(n) => n,
            None => 0,
        }
    }

    /// Moves on to the next block.
    pub fn inc_block_number(&mut self)
        requires
            old(self)@.block_number < BlockNumber::MAX,
        ensures
            final(self)@ == old(self)@.next_block(),
    {
        self.block_number = self.block_number + 1;
    }

    /// Counts one more action of `account`.
    pub fn inc_nonce(&mut self, account: &AccountId)
        requires
            old(self)@.nonce(account@) < Nonce::MAX,
        ensures
            final(self)@ == old(self)@.next_nonce(account@),
    {
        let nonce = self.nonce(account) + 1;
        self.nonce.insert(account, nonce);
    }
}

} // verus!
