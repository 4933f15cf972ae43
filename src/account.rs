//! Balance holder for one client.
//!
//! Amounts are fixed-point numbers counted in ten-thousandths of a unit, so that
//! every balance change is exact. All five balance operations are rows of one
//! table (`Op`): which fields move by how much, and under which guard.
use vstd::prelude::*;

verus! {

/// Number of fixed-point steps in one unit of currency.
pub const SCALE: i64 = 10000;

/// Raised when a balance change would leave the representable range.
#[derive(Debug, Clone, Copy, PartialEq, Eq, Structural)]
pub enum AccountError {
    Overflow,
}

/// The balance operations an account supports.
#[derive(Debug, Clone, Copy, PartialEq, Eq, Structural)]
pub enum Op {
    Deposit,
    Withdrawal,
    Dispute,
    Resolve,
    Chargeback,
}

impl Op {
    /// How much `available` moves when the operation takes effect.
    pub open spec fn available_delta(self, amount: int) -> int {
        match self {
            Op::Deposit | Op::Resolve => amount,
            Op::Withdrawal | Op::Dispute => -amount,
            Op::Chargeback => 0,
        }
    }

    /// How much `held` moves when the operation takes effect.
    pub open spec fn held_delta(self, amount: int) -> int {
        match self {
            Op::Dispute => amount,
            Op::Resolve | Op::Chargeback => -amount,
            Op::Deposit | Op::Withdrawal => 0,
        }
    }
}

/// Account data of one client.
#[derive(Debug, Clone, Copy, PartialEq, Eq, Structural)]
pub struct Account {
    /// The owner of the account.
    pub client: u16,
    /// Funds usable for withdrawal or dispute.
    pub available: i64,
    /// Funds frozen pending the outcome of a dispute.
    pub held: i64,
    /// Funds available or held.
    pub total: i64,
    /// One-way latch set by a chargeback.
    pub locked: bool,
}

impl Account {
    pub open spec fn spec_new(client: u16) -> Account {
        Account { client, available: 0, held: 0, total: 0, locked: false }
    }

    /// The account-wide invariant: `total == available + held`.
    pub open spec fn balanced(self) -> bool {
        self.total == self.available + self.held
    }

    /// The business guard of each operation.
    pub open spec fn guard(self, op: Op, amount: int) -> bool {
        match op {
            Op::Deposit => true,
            Op::Withdrawal | Op::Dispute => self.available - amount >= 0,
            Op::Resolve | Op::Chargeback => self.held - amount >= 0,
        }
    }

    /// Whether the operation changes the account (it never does once locked).
    pub open spec fn takes_effect(self, op: Op, amount: int) -> bool {
        !self.locked && self.guard(op, amount)
    }

    pub open spec fn next_available(self, op: Op, amount: int) -> int {
        self.available + op.available_delta(amount)
    }

    pub open spec fn next_held(self, op: Op, amount: int) -> int {
        self.held + op.held_delta(amount)
    }

    pub open spec fn next_total(self, op: Op, amount: int) -> int {
        self.total + op.available_delta(amount) + op.held_delta(amount)
    }

    /// Whether the balances after the operation are representable.
    pub open spec fn fits(self, op: Op, amount: int) -> bool {
        &&& i64::MIN <= self.next_available(op, amount) <= i64::MAX
        &&& i64::MIN <= self.next_held(op, amount) <= i64::MAX
        &&& i64::MIN <= self.next_total(op, amount) <= i64::MAX
    }

    /// The account after the operation has taken effect.
    pub open spec fn applied(self, op: Op, amount: int) -> Account {
        Account {
            client: self.client,
            available: self.next_available(op, amount) as i64,
            held: self.next_held(op, amount) as i64,
            total: self.next_total(op, amount) as i64,
            locked: self.locked || op == Op::Chargeback,
        }
    }

    /// The account and the result after attempting `op` with `amount`:
    /// unchanged and `Ok(false)` when the operation is refused, unchanged and
    /// `Err(Overflow)` when its result is not representable, applied and
    /// `Ok(true)` otherwise.
    pub open spec fn outcome(self, op: Op, amount: int) -> (Account, Result<bool, AccountError>) {
        if !self.takes_effect(op, amount) {
            (self, Ok(false))
        } else if !self.fits(op, amount) {
            (self, Err(AccountError::Overflow))
        } else {
            (self.applied(op, amount), Ok(true))
        }
    }

    /// A fresh, empty and unlocked account for `client_id`.
    pub fn new(client_id: u16) -> (r: Account)
        ensures
            r == Account::spec_new(client_id),
    {
        Account { client: client_id, available: 0, held: 0, total: 0, locked: false }
    }

    /// Attempts one balance operation. Refused operations leave the account as
    /// it was; so does one whose result would not be representable.
    pub fn apply(&mut self, op: Op, amount: i64) -> (r: Result<bool, AccountError>)
        ensures
            (*final(self), r) == old(self).outcome(op, amount as int),
            old(self).balanced() ==> final(self).balanced(),
    {
        let a = amount as i128;
        let available = self.available as i128;
        let held = self.held as i128;
        let total = self.total as i128;
        let guard = match op {
            Op::Deposit => true,
            Op::Withdrawal | Op::Dispute => available - a >= 0,
            Op::Resolve | Op::Chargeback => held - a >= 0,
        };
        if self.locked || !guard {
            return Ok(false);
        }
        let d_available: i128 = match op {
            Op::Deposit | Op::Resolve => a,
            Op::Withdrawal | Op::Dispute => -a,
            Op::Chargeback => 0,
        };
        let d_held: i128 = match op {
            Op::Dispute => a,
            Op::Resolve | Op::Chargeback => -a,
            Op::Deposit | Op::Withdrawal => 0,
        };
        let new_available = available + d_available;
        let new_held = held + d_held;
        let new_total = total + d_available + d_held;
        let lo = i64::MIN as i128;
        let hi = i64::MAX as i128;
        if new_available < lo || new_available > hi || new_held < lo || new_held > hi
            || new_total < lo || new_total > hi {
            return Err(AccountError::Overflow);
        }
        self.available = new_available as i64;
        self.held = new_held as i64;
        self.total = new_total as i64;
        if matches!(op, Op::Chargeback) {
            self.locked = true;
        }
        Ok(true)
    }

    /// `available += amount; total += amount`.
    pub fn deposit(&mut self, amount: i64) -> (r: Result<bool, AccountError>)
        ensures
            (*final(self), r) == old(self).outcome(Op::Deposit, amount as int),
            old(self).balanced() ==> final(self).balanced(),
    {
        self.apply(Op::Deposit, amount)
    }

    /// `available -= amount; total -= amount`, when `available - amount >= 0`.
    pub fn withdrawl(&mut self, amount: i64) -> (r: Result<bool, AccountError>)
        ensures
            (*final(self), r) == old(self).outcome(Op::Withdrawal, amount as int),
            old(self).balanced() ==> final(self).balanced(),
    {
        self.apply(Op::Withdrawal, amount)
    }

    /// `available -= amount; held += amount`, when `available - amount >= 0`.
    pub fn dispute(&mut self, amount: i64) -> (r: Result<bool, AccountError>)
        ensures
            (*final(self), r) == old(self).outcome(Op::Dispute, amount as int),
            old(self).balanced() ==> final(self).balanced(),
    {
        self.apply(Op::Dispute, amount)
    }

    /// `held -= amount; available += amount`, when `held - amount >= 0`.
    pub fn resolve(&mut self, amount: i64) -> (r: Result<bool, AccountError>)
        ensures
            (*final(self), r) == old(self).outcome(Op::Resolve, amount as int),
            old(self).balanced() ==> final(self).balanced(),
    {
        self.apply(Op::Resolve, amount)
    }

    /// `held -= amount; total -= amount` and lock the account, when
    /// `held - amount >= 0`.
    pub fn chargeback(&mut self, amount: i64) -> (r: Result<bool, AccountError>)
        ensures
            (*final(self), r) == old(self).outcome(Op::Chargeback, amount as int),
            old(self).balanced() ==> final(self).balanced(),
    {
        self.apply(Op::Chargeback, amount)
    }
}

} // verus!
