//! Budgey: a verified core for a commit-style personal budget ledger.
//!
//! Money is tracked in named piles (sub-ledgers) inside named budgets.
//! Transactions are staged against a pile, committed into immutable
//! records, or discarded by restoring to the last record. All amounts
//! are fixed-point minor units (integer cents), so balances carry no
//! rounding drift. Every operation here is pure: it takes a snapshot
//! and returns a new snapshot or a typed error; storage and terminal
//! concerns live with the callers.

pub mod budget;
pub mod budget_collection;
pub mod budget_handling;
pub mod budgey_config;
pub mod budgey_context;
pub mod budgey_handling;
pub mod budgey_state;
pub mod errors;
pub mod handlers;
pub mod pile;
pub mod pile_handling;
pub mod record_transaction;
pub mod storage;
pub mod use_cases;
pub mod utils;

pub use errors::BudgeyError;
