//! A payment engine: per-client accounts driven by a stream of ledger events,
//! with balances kept in fixed-point ten-thousandths and a deterministic report.

pub mod account;
pub mod engine;
pub mod ledger;
pub mod report;
pub mod transaction;

pub use account::{Account, AccountError, Op, SCALE};
pub use ledger::{Ledger, TxRecord};
pub use transaction::{EngineEvent, Transaction, TransactionType};
pub use engine::{run, Engine};
