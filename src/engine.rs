//! The dispatcher: routes each ledger event to its client's account and to
//! the run-wide ledger, and assembles the final report.
//!
//! The state of the engine is modelled as the map from client id to account
//! together with the map of the ledger, from transaction id to its record.
use crate::account::{Account, AccountError, Op};
use crate::ledger::{Ledger, TxRecord};
use crate::report::{push_header, push_row, report_text, rows_below};
use crate::transaction::{EngineEvent, Transaction, TransactionType};
use std::collections::HashMap;
use vstd::prelude::*;

verus! {

broadcast use vstd::std_specs::hash::group_hash_axioms;

/// The accounts by client id, and the ledger by transaction id.
pub type EngineView = (Map<u16, Account>, Map<u32, TxRecord>);

/// The account of `client`, or a fresh one when it has none yet.
pub open spec fn current(s: EngineView, client: u16) -> Account {
    if s.0.contains_key(client) {
        s.0[client]
    } else {
        Account::spec_new(client)
    }
}

/// Whether the ledger holds `t.tx` as an entry of `t.client` whose dispute
/// flag is `disputed`.
pub open spec fn has_entry(s: EngineView, t: Transaction, disputed: bool) -> bool {
    &&& s.1.contains_key(t.tx)
    &&& s.1[t.tx].client == t.client
    &&& s.1[t.tx].disputed == disputed
}

/// The balance operation an event asks for, with its amount and the ledger
/// entry written for `t.tx` once it succeeds; `None` when the ledger guard
/// rejects the event: a deposit or withdrawal without an amount or with an id
/// already recorded (by any client), or a dispute, resolve or chargeback
/// without an entry of the same client in the required dispute state.
pub open spec fn requested(s: EngineView, t: Transaction) -> Option<(Op, i64, TxRecord)> {
    let l = s.1;
    match t.typename {
        TransactionType::Deposit | TransactionType::Withdrawal => {
            if t.amount is Some && !l.contains_key(t.tx) {
                let x = t.amount->Some_0;
                let op = if t.typename == TransactionType::Deposit {
                    Op::Deposit
                } else {
                    Op::Withdrawal
                };
                Some((op, x, TxRecord { client: t.client, amount: x, disputed: false }))
            } else {
                None
            }
        },
        TransactionType::Dispute => {
            if has_entry(s, t, false) {
                Some((Op::Dispute, l[t.tx].amount, TxRecord { disputed: true, ..l[t.tx] }))
            } else {
                None
            }
        },
        TransactionType::Resolve | TransactionType::Chargeback => {
            if has_entry(s, t, true) {
                let op = if t.typename == TransactionType::Resolve {
                    Op::Resolve
                } else {
                    Op::Chargeback
                };
                Some((op, l[t.tx].amount, TxRecord { disputed: false, ..l[t.tx] }))
            } else {
                None
            }
        },
    }
}

/// The requested operation, when the account also accepts it (it is not
/// locked and the balance guard holds).
pub open spec fn effect(s: EngineView, t: Transaction) -> Option<(Op, i64, TxRecord)> {
    match requested(s, t) {
        Some(e) => if current(s, t.client).takes_effect(e.0, e.1 as int) {
            Some(e)
        } else {
            None
        },
        None => None,
    }
}

/// Whether the event would take the account out of the representable range.
pub open spec fn overflows(s: EngineView, t: Transaction) -> bool {
    match effect(s, t) {
        Some(e) => !current(s, t.client).fits(e.0, e.1 as int),
        None => false,
    }
}

/// The engine's state after the event. The client's account is created on
/// first sight; the operation is applied and the ledger entry written when
/// the event takes effect. An event that would overflow changes nothing.
pub open spec fn next(s: EngineView, t: Transaction) -> EngineView {
    let a = current(s, t.client);
    if overflows(s, t) {
        s
    } else {
        match effect(s, t) {
            Some(e) => (s.0.insert(t.client, a.applied(e.0, e.1 as int)), s.1.insert(t.tx, e.2)),
            None => (s.0.insert(t.client, a), s.1),
        }
    }
}

/// Every account is balanced and belongs to the client it is filed under.
pub open spec fn well_formed(s: EngineView) -> bool {
    forall|k: u16| #[trigger] s.0.contains_key(k) ==> s.0[k].balanced() && s.0[k].client == k
}

/// The result of consuming `events` from state `s`: the report at the first
/// `Report` event, an empty text when there is none, or the overflow error of
/// the first event that overflows.
pub open spec fn run_from(s: EngineView, events: Seq<EngineEvent>) -> Result<Seq<char>, AccountError>
    decreases events.len(),
{
    if events.len() == 0 {
        Ok(Seq::empty())
    } else {
        match events[0] {
            EngineEvent::Report() => Ok(report_text(s.0)),
            EngineEvent::Tx(t) => if overflows(s, t) {
                Err(AccountError::Overflow)
            } else {
                run_from(next(s, t), events.drop_first())
            },
        }
    }
}

/// The state of a fresh engine: no account and an empty ledger.
pub open spec fn empty_view() -> EngineView {
    (Map::empty(), Map::empty())
}

/// Owns every account and the ledger; consumes events one at a time.
pub struct Engine {
    accounts: HashMap<u16, Account>,
    ledger: Ledger,
}

impl View for Engine {
    type V = EngineView;

    closed spec fn view(&self) -> EngineView {
        (self.accounts@, self.ledger@)
    }
}

impl Engine {
    /// An engine with no accounts and an empty ledger.
    pub fn new() -> (r: Engine)
        ensures
            r@ == empty_view(),
            well_formed(r@),
    {
        Engine { accounts: HashMap::new(), ledger: Ledger::new() }
    }

    /// The operation `t` asks for, after the ledger guard.
    fn request(&self, t: &Transaction) -> (r: Option<(Op, i64, TxRecord)>)
        ensures
            r == requested(self@, *t),
    {
        match t.typename {
            TransactionType::Deposit | TransactionType::Withdrawal => match t.amount {
                Some(x) => {
                    if self.ledger.contains(t.tx) {
                        None
                    } else {
                        let op = match t.typename {
                            TransactionType::Deposit => Op::Deposit,
                            _ => Op::Withdrawal,
                        };
                        Some((op, x, TxRecord { client: t.client, amount: x, disputed: false }))
                    }
                },
                None => None,
            },
            TransactionType::Dispute => match self.ledger.lookup(t.tx) {
                Some(rec) => {
                    if rec.client == t.client && !rec.disputed {
                        Some((Op::Dispute, rec.amount, TxRecord { client: rec.client, amount: rec.amount, disputed: true }))
                    } else {
                        None
                    }
                },
                None => None,
            },
            TransactionType::Resolve | TransactionType::Chargeback => match self.ledger.lookup(
                t.tx,
            ) {
                Some(rec) => {
                    if rec.client == t.client && rec.disputed {
                        let op = match t.typename {
                            TransactionType::Resolve => Op::Resolve,
                            _ => Op::Chargeback,
                        };
                        Some((op, rec.amount, TxRecord { client: rec.client, amount: rec.amount, disputed: false }))
                    } else {
                        None
                    }
                },
                None => None,
            },
        }
    }

    /// Processes one ledger event: creates the client's account on first
    /// sight, then applies the event or skips it. An event whose result would
    /// not be representable is refused with `Overflow` and changes nothing.
    pub fn apply_transaction(&mut self, t: Transaction) -> (r: Result<(), AccountError>)
        ensures
            r is Err <==> overflows(old(self)@, t),
            r is Err ==> r == Err::<(), AccountError>(AccountError::Overflow),
            final(self)@ == next(old(self)@, t),
            well_formed(old(self)@) ==> well_formed(final(self)@),
    {
        let ghost s = self@;
        let mut a = match self.accounts.get(&t.client) {
            Some(a) => *a,
            None => Account::new(t.client),
        };
        assert(a == current(s, t.client));
        match self.request(&t) {
            None => {
                self.accounts.insert(t.client, a);
                Ok(())
            },
            Some((op, x, rec)) => match a.apply(op, x) {
                Ok(true) => {
                    self.accounts.insert(t.client, a);
                    if rec.disputed || self.ledger.contains(t.tx) {
                        self.ledger.mark(t.tx, rec.disputed);
                    } else {
                        self.ledger.record(t.tx, t.client, x);
                    }
                    proof {
                        assert(self@.1 =~= s.1.insert(t.tx, rec));
                        if well_formed(s) {
                            lemma_next_well_formed(s, t);
                        }
                    }
                    Ok(())
                },
                Ok(false) => {
                    self.accounts.insert(t.client, a);
                    Ok(())
                },
                Err(e) => Err(e),
            },
        }
    }

    /// The report of the current accounts: empty when there is none, else a
    /// header and one row per account in ascending client order.
    pub fn report(&self) -> (r: String)
        ensures
            r@ == report_text(self@.0),
            self@.0.len() == 0 ==> r@.len() == 0,
    {
        let ghost acc = self@.0;
        let mut out = String::new();
        if self.accounts.len() == 0 {
            return out;
        }
        push_header(&mut out);
        let ghost head = out@;
        let mut k: u32 = 0;
        while k < 0x10000
            invariant
                k <= 0x10000,
                acc == self@.0,
                out@ == head + rows_below(acc, k as int),
            decreases 0x10000 - k,
        {
            let id = k as u16;
            match self.accounts.get(&id) {
                Some(a) => {
                    push_row(a, &mut out);
                },
                None => {},
            }
            proof {
                assert(id as int == k as int);
                assert(out@ =~= head + rows_below(acc, k + 1));
            }
            k = k + 1;
        }
        out
    }

    /// Handles one event: a ledger event yields `None`; the terminal `Report`
    /// event yields the report.
    pub fn handle(&mut self, event: EngineEvent) -> (r: Result<Option<String>, AccountError>)
        ensures
            match event {
                EngineEvent::Tx(t) => {
                    &&& final(self)@ == next(old(self)@, t)
                    &&& (r is Err <==> overflows(old(self)@, t))
                    &&& r is Ok ==> r == Ok::<Option<String>, AccountError>(None)
                    &&& r is Err ==> r == Err::<Option<String>, AccountError>(AccountError::Overflow)
                },
                EngineEvent::Report() => {
                    &&& final(self)@ == old(self)@
                    &&& r is Ok && r->Ok_0 is Some
                    &&& r->Ok_0->Some_0@ == report_text(old(self)@.0)
                },
            },
            well_formed(old(self)@) ==> well_formed(final(self)@),
    {
        match event {
            EngineEvent::Tx(t) => match self.apply_transaction(t) {
                Ok(()) => Ok(None),
                Err(e) => Err(e),
            },
            EngineEvent::Report() => Ok(Some(self.report())),
        }
    }
}

/// Consumes `events` in order on a fresh engine, up to the first `Report`
/// event, whose report it returns; without one it returns an empty text. The
/// first event that would overflow aborts the run.
pub fn run(events: &Vec<EngineEvent>) -> (r: Result<String, AccountError>)
    ensures
        match r {
            Ok(text) => run_from(empty_view(), events@) == Ok::<Seq<char>, AccountError>(text@),
            Err(e) => run_from(empty_view(), events@) == Err::<Seq<char>, AccountError>(e),
        },
{
    let mut engine = Engine::new();
    let mut i: usize = 0;
    assert(events@.skip(0) =~= events@);
    while i < events.len()
        invariant
            i <= events@.len(),
            run_from(engine@, events@.skip(i as int)) == run_from(empty_view(), events@),
        decreases events@.len() - i,
    {
        proof {
            assert(events@.skip(i as int).drop_first() =~= events@.skip(i + 1));
        }
        match engine.handle(events[i]) {
            Ok(Some(text)) => {
                return Ok(text);
            },
            Ok(None) => {},
            Err(e) => {
                return Err(e);
            },
        }
        i = i + 1;
    }
    Ok(String::new())
}

/// The engine's state after the transactions `ts`, in order, from `s`.
pub open spec fn apply_all(s: EngineView, ts: Seq<Transaction>) -> EngineView
    decreases ts.len(),
{
    if ts.len() == 0 {
        s
    } else {
        apply_all(next(s, ts[0]), ts.drop_first())
    }
}

/// The events that carry the transactions `ts`, in order.
pub open spec fn tx_events(ts: Seq<Transaction>) -> Seq<EngineEvent> {
    ts.map_values(|t: Transaction| EngineEvent::Tx(t))
}

/// Consuming transactions and then `Report` either fails with an overflow or
/// reports the accounts of the state those transactions lead to.
pub proof fn lemma_run_reports_final_state(s: EngineView, ts: Seq<Transaction>)
    ensures
        run_from(s, tx_events(ts).push(EngineEvent::Report())) == Err::<Seq<char>, AccountError>(
            AccountError::Overflow,
        ) || run_from(s, tx_events(ts).push(EngineEvent::Report())) == Ok::<
            Seq<char>,
            AccountError,
        >(report_text(apply_all(s, ts).0)),
    decreases ts.len(),
{
    let evs = tx_events(ts).push(EngineEvent::Report());
    if ts.len() > 0 {
        assert(evs[0] == EngineEvent::Tx(ts[0]));
        assert(evs.drop_first() =~= tx_events(ts.drop_first()).push(EngineEvent::Report()));
        lemma_run_reports_final_state(next(s, ts[0]), ts.drop_first());
    } else {
        assert(evs[0] == EngineEvent::Report());
    }
}

/// Every event keeps every account balanced (`total == available + held`)
/// and filed under its own client.
pub proof fn lemma_next_well_formed(s: EngineView, t: Transaction)
    requires
        well_formed(s),
    ensures
        well_formed(next(s, t)),
{
}

/// Any sequence of events keeps a well-formed state well-formed.
pub proof fn lemma_apply_all_well_formed(s: EngineView, ts: Seq<Transaction>)
    requires
        well_formed(s),
    ensures
        well_formed(apply_all(s, ts)),
    decreases ts.len(),
{
    if ts.len() > 0 {
        lemma_next_well_formed(s, ts[0]);
        lemma_apply_all_well_formed(next(s, ts[0]), ts.drop_first());
    }
}

/// From a fresh engine, after any sequence of events, every account is
/// balanced: `total == available + held`.
pub proof fn lemma_always_balanced(ts: Seq<Transaction>)
    ensures
        well_formed(apply_all(empty_view(), ts)),
        forall|k: u16| #[trigger] apply_all(empty_view(), ts).0.contains_key(k) ==> {
            let a = apply_all(empty_view(), ts).0[k];
            a.total == a.available + a.held
        },
{
    lemma_apply_all_well_formed(empty_view(), ts);
}

/// A deposit or withdrawal whose id the ledger already holds, for any
/// client, changes no balance and no ledger entry; it only creates the
/// client's account when the client is new.
pub proof fn lemma_replay_has_no_effect(s: EngineView, t: Transaction)
    requires
        t.is_transfer(),
        s.1.contains_key(t.tx),
    ensures
        next(s, t) == (s.0.insert(t.client, current(s, t.client)), s.1),
        s.0.contains_key(t.client) ==> next(s, t) == s,
{
    if s.0.contains_key(t.client) {
        assert(s.0.insert(t.client, current(s, t.client)) =~= s.0);
    }
}

/// Submitting the same deposit or withdrawal twice has the effect of
/// submitting it once.
pub proof fn lemma_transfer_idempotent(s: EngineView, t: Transaction)
    requires
        t.is_transfer(),
    ensures
        next(next(s, t), t) == next(s, t),
{
    let s1 = next(s, t);
    if !overflows(s, t) {
        assert(current(s1, t.client) == s1.0[t.client]);
        if effect(s, t) is None {
            if requested(s, t) is None {
                assert(requested(s1, t) is None);
            } else {
                assert(requested(s1, t) == requested(s, t));
            }
            assert(s1.0.insert(t.client, current(s1, t.client)) =~= s1.0);
        } else {
            assert(s1.1.contains_key(t.tx));
            lemma_replay_has_no_effect(s1, t);
        }
    }
}

/// A dispute needs an undisputed ledger entry of the same client, and a
/// resolve or chargeback a disputed one; without it the event changes no
/// balance and no ledger entry (the client's account is created if new).
pub proof fn lemma_dispute_family_needs_entry(s: EngineView, t: Transaction)
    requires
        !t.is_transfer(),
        !has_entry(s, t, t.typename != TransactionType::Dispute),
    ensures
        next(s, t) == (s.0.insert(t.client, current(s, t.client)), s.1),
{
}

/// A locked account never changes again, whatever the event.
pub proof fn lemma_locked_is_final(s: EngineView, t: Transaction, k: u16)
    requires
        s.0.contains_key(k),
        s.0[k].locked,
    ensures
        next(s, t).0.contains_key(k),
        next(s, t).0[k] == s.0[k],
{
}

/// A locked account stays as it is through any sequence of events.
pub proof fn lemma_locked_stays(s: EngineView, ts: Seq<Transaction>, k: u16)
    requires
        s.0.contains_key(k),
        s.0[k].locked,
    ensures
        apply_all(s, ts).0.contains_key(k),
        apply_all(s, ts).0[k] == s.0[k],
    decreases ts.len(),
{
    if ts.len() > 0 {
        lemma_locked_is_final(s, ts[0], k);
        lemma_locked_stays(next(s, ts[0]), ts.drop_first(), k);
    }
}

/// Consuming transactions after an account was locked either fails with an
/// overflow or reports a state in which that account is exactly as it was.
pub proof fn lemma_locked_row_in_run(s: EngineView, ts: Seq<Transaction>, k: u16)
    requires
        s.0.contains_key(k),
        s.0[k].locked,
    ensures
        run_from(s, tx_events(ts).push(EngineEvent::Report())) is Err || {
            &&& run_from(s, tx_events(ts).push(EngineEvent::Report())) == Ok::<
                Seq<char>,
                AccountError,
            >(report_text(apply_all(s, ts).0))
            &&& apply_all(s, ts).0.contains_key(k)
            &&& apply_all(s, ts).0[k] == s.0[k]
        },
{
    lemma_run_reports_final_state(s, ts);
    lemma_locked_stays(s, ts, k);
}

/// With no account the report is empty: no header and no rows.
pub proof fn lemma_empty_report(s: EngineView)
    requires
        s.0.len() == 0,
    ensures
        report_text(s.0) == Seq::<char>::empty(),
{
}

} // verus!
