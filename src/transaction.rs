//! Input events of the engine.
use vstd::prelude::*;

verus! {

/// The kind of a ledger event.
#[derive(Debug, Clone, Copy, PartialEq, Eq, Structural)]
pub enum TransactionType {
    Deposit,
    Withdrawal,
    Dispute,
    Resolve,
    Chargeback,
}

/// Input transaction.
#[derive(Debug, Clone, Copy, PartialEq, Eq, Structural)]
pub struct Transaction {
    /// Type of the transaction.
    pub typename: TransactionType,
    /// The client that performed the transaction.
    pub client: u16,
    /// Transaction id.
    pub tx: u32,
    /// Amount in ten-thousandths; present for deposits and withdrawals.
    pub amount: Option<i64>,
}

impl Transaction {
    pub fn new(typename: TransactionType, client: u16, tx: u32, amount: Option<i64>) -> (r: Transaction)
        ensures
            r == (Transaction { typename, client, tx, amount }),
    {
        Transaction { typename, client, tx, amount }
    }

    /// Whether this is a deposit or a withdrawal.
    pub open spec fn is_transfer(self) -> bool {
        self.typename == TransactionType::Deposit || self.typename == TransactionType::Withdrawal
    }
}

/// The messages the engine consumes.
#[derive(Debug, Clone, Copy, PartialEq, Eq, Structural)]
pub enum EngineEvent {
    /// A ledger event.
    Tx(Transaction),
    /// Terminal event: emit the report and stop.
    Report(),
}

} // verus!
