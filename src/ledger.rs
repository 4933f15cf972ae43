//! Record of accepted deposits and withdrawals, keyed by transaction id.
//!
//! Transaction ids are unique within a whole run, so one ledger serves every
//! client; each entry remembers the client it belongs to.
use std::collections::HashMap;
use vstd::prelude::*;

verus! {

broadcast use vstd::std_specs::hash::group_hash_axioms;

/// One accepted deposit or withdrawal.
#[derive(Debug, Clone, Copy, PartialEq, Eq, Structural)]
pub struct TxRecord {
    /// The client whose deposit or withdrawal this was.
    pub client: u16,
    /// The amount of the deposit or withdrawal, in ten-thousandths.
    pub amount: i64,
    /// Whether the transaction is currently under dispute.
    pub disputed: bool,
}

/// Transaction history of the run. Its view maps each recorded transaction
/// id to its record.
pub struct Ledger {
    entries: HashMap<u32, TxRecord>,
}

impl View for Ledger {
    type V = Map<u32, TxRecord>;

    closed spec fn view(&self) -> Map<u32, TxRecord> {
        self.entries@
    }
}

impl Ledger {
    /// An empty ledger.
    pub fn new() -> (r: Ledger)
        ensures
            r@ == Map::<u32, TxRecord>::empty(),
    {
        Ledger { entries: HashMap::new() }
    }

    /// Whether `tx` has been recorded.
    pub fn contains(&self, tx: u32) -> (r: bool)
        ensures
            r == self@.contains_key(tx),
    {
        self.entries.contains_key(&tx)
    }

    /// Inserts a new undisputed entry; the first writer wins, so an id that
    /// is already present leaves the ledger unchanged. Returns whether it
    /// inserted.
    pub fn record(&mut self, tx: u32, client: u16, amount: i64) -> (r: bool)
        ensures
            r == !old(self)@.contains_key(tx),
            r ==> final(self)@ == old(self)@.insert(tx, TxRecord { client, amount, disputed: false }),
            !r ==> final(self)@ == old(self)@,
    {
        if self.entries.contains_key(&tx) {
            false
        } else {
            self.entries.insert(tx, TxRecord { client, amount, disputed: false });
            true
        }
    }

    /// The entry of `tx`, if any.
    pub fn lookup(&self, tx: u32) -> (r: Option<TxRecord>)
        ensures
            r == (if self@.contains_key(tx) {
                Some(self@[tx])
            } else {
                None::<TxRecord>
            }),
    {
        match self.entries.get(&tx) {
            Some(e) => Some(*e),
            None => None,
        }
    }

    /// Sets the dispute flag of the entry of `tx`; no-op when absent.
    pub fn mark(&mut self, tx: u32, disputed: bool)
        ensures
            old(self)@.contains_key(tx) ==> final(self)@ == old(self)@.insert(
                tx,
                TxRecord { client: old(self)@[tx].client, amount: old(self)@[tx].amount, disputed },
            ),
            !old(self)@.contains_key(tx) ==> final(self)@ == old(self)@,
    {
        match self.entries.get(&tx) {
            Some(e) => {
                let rec = TxRecord { client: e.client, amount: e.amount, disputed };
                self.entries.insert(tx, rec);
            },
            None => {},
        }
    }
}

} // verus!
