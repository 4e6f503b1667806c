use crate::account_map::AccountMap;
use crate::types::{AccountId, Balance};
use vstd::prelude::*;

verus! {

/// Why a transfer was refused.
#[derive(Debug, Clone, Copy, PartialEq, Eq, Structural)]
pub enum ErrorKind {
    /// The paying account holds less than the amount.
    InsufficientFunds,
    /// The receiving account's balance would exceed the largest `Balance`.
    BalanceOverflow,
}

impl ErrorKind {
    /// A short description of the error.
    pub fn message(&self) -> (r: &'static str)
        ensures
            r@ == (match self {
                ErrorKind::InsufficientFunds => "Not enough funds."@,
                ErrorKind::BalanceOverflow => "Funds not added."@,
            }),
    {
        match self {
            ErrorKind::InsufficientFunds => "Not enough funds.",
            ErrorKind::BalanceOverflow => "Funds not added.",
        }
    }
}

/// The balance of `account` in the ledger `m`: an account that was never
/// written holds zero.
pub open spec fn balance_in(m: Map<Seq<char>, Balance>, account: Seq<char>) -> Balance {
    if m.contains_key(account) {
        m[account]
    } else {
        0
    }
}

/// Whether a transfer of `amount` from `caller` to `to` goes through in
/// ledger `m`, and if not, why.
pub open spec fn transfer_outcome(
    m: Map<Seq<char>, Balance>,
    caller: Seq<char>,
    to: Seq<char>,
    amount: Balance,
) -> Result<(), ErrorKind> {
    if balance_in(m, caller) < amount {
        Err(ErrorKind::InsufficientFunds)
    } else if caller != to && balance_in(m, to) + amount > Balance::MAX {
        Err(ErrorKind::BalanceOverflow)
    } else {
        Ok(())
    }
}

/// The ledger after `amount` has moved from `caller` to `to`. Paying oneself
/// takes the amount out and puts it back, so the balance stays as it was.
pub open spec fn moved(
    m: Map<Seq<char>, Balance>,
    caller: Seq<char>,
    to: Seq<char>,
    amount: Balance,
) -> Map<Seq<char>, Balance> {
    if caller == to {
        m.insert(caller, balance_in(m, caller))
    } else {
        m.insert(caller, (balance_in(m, caller) - amount) as Balance).insert(
            to,
            (balance_in(m, to) + amount) as Balance,
        )
    }
}

/// The ledger after a transfer was asked for: moved when it goes through,
/// as it was when it is refused.
pub open spec fn after_transfer(
    m: Map<Seq<char>, Balance>,
    caller: Seq<char>,
    to: Seq<char>,
    amount: Balance,
) -> Map<Seq<char>, Balance> {
    if transfer_outcome(m, caller, to, amount) is Ok {
        moved(m, caller, to, amount)
    } else {
        m
    }
}

/// One operation on the ledger, as its callers issue them.
pub enum LedgerOp {
    SetBalance(Seq<char>, Balance),
    Transfer(Seq<char>, Seq<char>, Balance),
}

impl LedgerOp {
    /// Whether the operation names `account`.
    pub open spec fn names(self, account: Seq<char>) -> bool {
        match self {
            LedgerOp::SetBalance(a, _) => a == account,
            LedgerOp::Transfer(caller, to, _) => caller == account || to == account,
        }
    }

    /// The ledger after the operation, refused transfers included.
    pub open spec fn apply(self, m: Map<Seq<char>, Balance>) -> Map<Seq<char>, Balance> {
        match self {
            LedgerOp::SetBalance(a, v) => m.insert(a, v),
            LedgerOp::Transfer(caller, to, amount) => after_transfer(m, caller, to, amount),
        }
    }
}

/// The ledger after `ops`, applied in order to `m`.
pub open spec fn apply_all(m: Map<Seq<char>, Balance>, ops: Seq<LedgerOp>) -> Map<
    Seq<char>,
    Balance,
>
    decreases ops.len(),
{
    if ops.len() == 0 {
        m
    } else {
        ops.last().apply(apply_all(m, ops.drop_last()))
    }
}

/// An account that no operation names holds zero, whatever was done to
/// the other accounts of a new ledger.
pub proof fn lemma_untouched_balance_is_zero(ops: Seq<LedgerOp>, account: Seq<char>)
    requires
        forall|i: int| 0 <= i < ops.len() ==> !(#[trigger] ops[i]).names(account),
    ensures
        balance_in(apply_all(Map::empty(), ops), account) == 0,
    decreases ops.len(),
{
    if ops.len() > 0 {
        let rest = ops.drop_last();
        assert forall|i: int| 0 <= i < rest.len() implies !(#[trigger] rest[i]).names(account) by {
            assert(rest[i] == ops[i]);
        }
        lemma_untouched_balance_is_zero(rest, account);
        assert(!ops[ops.len() - 1].names(account));
    }
}

/// Reading a balance just written gives the value written.
pub proof fn lemma_read_after_set(m: Map<Seq<char>, Balance>, account: Seq<char>, amount: Balance)
    ensures
        balance_in(m.insert(account, amount), account) == amount,
{
}

/// A transfer of more than the caller holds is refused and leaves both
/// balances as they were.
pub proof fn lemma_insufficient_funds(
    m: Map<Seq<char>, Balance>,
    caller: Seq<char>,
    to: Seq<char>,
    amount: Balance,
)
    requires
        balance_in(m, caller) < amount,
    ensures
        transfer_outcome(m, caller, to, amount) == Err::<(), ErrorKind>(
            ErrorKind::InsufficientFunds,
        ),
        balance_in(after_transfer(m, caller, to, amount), caller) == balance_in(m, caller),
        balance_in(after_transfer(m, caller, to, amount), to) == balance_in(m, to),
{
}

/// Between two accounts, a covered transfer whose sum fits goes through:
/// the caller loses the amount and the receiver gains it.
pub proof fn lemma_covered_transfer(
    m: Map<Seq<char>, Balance>,
    caller: Seq<char>,
    to: Seq<char>,
    amount: Balance,
)
    requires
        caller != to,
        balance_in(m, caller) >= amount,
        balance_in(m, to) + amount <= Balance::MAX,
    ensures
        transfer_outcome(m, caller, to, amount) == Ok::<(), ErrorKind>(()),
        balance_in(after_transfer(m, caller, to, amount), caller) == balance_in(m, caller)
            - amount,
        balance_in(after_transfer(m, caller, to, amount), to) == balance_in(m, to) + amount,
{
}

/// Paying oneself no more than one holds goes through and leaves the
/// balance as it was.
pub proof fn lemma_self_transfer(m: Map<Seq<char>, Balance>, account: Seq<char>, amount: Balance)
    requires
        balance_in(m, account) >= amount,
    ensures
        transfer_outcome(m, account, account, amount) == Ok::<(), ErrorKind>(()),
        balance_in(after_transfer(m, account, account, amount), account) == balance_in(
            m,
            account,
        ),
{
}

/// Relies on num's `CheckedSub` for `u128`, which defers to `u128::checked_sub`:
/// the difference when it is not negative, `None` otherwise.
#[verifier::external_body]
fn checked_sub(a: Balance, b: Balance) -> (r: Option<Balance>)
    ensures
        r == (if b <= a {
            Some((a - b) as Balance)
        } else {
            None
        }),
{
    num::traits::CheckedSub::checked_sub(&a, &b)
}

/// Relies on num's `CheckedAdd` for `u128`, which defers to `u128::checked_add`:
/// the sum when it fits, `None` otherwise.
#[verifier::external_body]
fn checked_add(a: Balance, b: Balance) -> (r: Option<Balance>)
    ensures
        r == (if a + b <= Balance::MAX {
            Some((a + b) as Balance)
        } else {
            None
        }),
{
    num::traits::CheckedAdd::checked_add(&a, &b)
}

/// The ledger: the balance of every account.
#[derive(Debug)]
pub struct Pallet {
    balances: AccountMap<Balance>,
}

impl View for Pallet {
    type V = Map<Seq<char>, Balance>;

    closed spec fn view(&self) -> Map<Seq<char>, Balance> {
        self.balances@
    }
}

impl Pallet {
    /// A ledger in which no balance was written.
    pub fn new() -> (r: Self)
        ensures
            r@ == Map::<Seq<char>, Balance>::empty(),
    {
        Pallet { balances: AccountMap::new() }
    }

    /// Overwrites the balance of `account` with `amount`.
    pub fn set_balance(&mut self, account: &AccountId, amount: Balance)
        ensures
            final(self)@ == old(self)@.insert(account@, amount),
    {
        self.balances.insert(account, amount);
    }

    /// The balance of `account`, zero where none was written.
    pub fn balance(&self, account: &AccountId) -> (r: Balance)
        ensures
            r == balance_in(self@, account@),
    {
        match self.balances.get(account) {
            Some(b) => b,
            None => 0,
        }
    }

    /// Moves `amount` from `caller` to `to`. Refused with `InsufficientFunds`
    /// where `caller` holds less than `amount`, and with `BalanceOverflow`
    /// where `to` would end above the largest balance; a refused transfer
    /// changes nothing.
    pub fn transfer(&mut self, caller: &AccountId, to: &AccountId, amount: &Balance) -> (r: Result<
        (),
        ErrorKind,
    >)
        ensures
            r == transfer_outcome(old(self)@, caller@, to@, *amount),
            final(self)@ == after_transfer(old(self)@, caller@, to@, *amount),
    {
        let caller_balance = self.balance(caller);
        let new_caller_balance = match checked_sub(caller_balance, *amount) {
            Some(b) => b,
            None => {
                return Err(ErrorKind::InsufficientFunds);
            },
        };
        // Paying oneself adds the amount back to what is left after taking it out.
        let to_balance = if *caller == *to {
            new_caller_balance
        } else {
            self.balance(to)
        };
        let new_to_balance = match checked_add(to_balance, *amount) {
            Some(b) => b,
            None => {
                return Err(ErrorKind::BalanceOverflow);
            },
        };
        self.set_balance(caller, new_caller_balance);
        self.set_balance(to, new_to_balance);
        Ok(())
    }
}

} // verus!
