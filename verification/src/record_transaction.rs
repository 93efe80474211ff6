//! The transaction and record model: a staged money movement, and an
//! immutable commit of a batch of movements.
//!
//! All amounts are fixed-point minor units (integer cents), so sums
//! carry no rounding drift. Timestamps are seconds since the Unix
//! epoch.

use vstd::prelude::*;

verus! {

use crate::utils::fresh_nanoid;

/// The kind of a money movement.
#[derive(Clone, Copy, Debug, PartialEq, Eq, Structural)]
pub enum TransactionType {
    /// Adding to a pile.
    Add,
    /// Withdrawing from a pile.
    Withdraw,
    /// Initialising a pile; always the first movement of a pile.
    Init,
}

/// A single money movement, staged against a pile but not yet part of
/// a committed record.
#[derive(Debug, PartialEq)]
pub struct Transaction {
    /// The kind of movement.
    pub transaction_type: TransactionType,
    /// The amount moved, in minor units; never negative in a valid
    /// transaction.
    pub amount: i64,
    /// An optional note for this transaction.
    pub note: Option<String>,
}

impl Transaction {
    /// A transaction the data model admits: its amount is not negative.
    pub open spec fn valid(self) -> bool {
        0 <= self.amount
    }

    /// The movement's effect on a balance: an addition counts
    /// positively, a withdrawal negatively, an initialisation not at
    /// all.
    pub open spec fn signed_amount(self) -> int {
        match self.transaction_type {
            TransactionType::Add => self.amount as int,
            TransactionType::Withdraw => -(self.amount as int),
            TransactionType::Init => 0,
        }
    }

    pub fn new(transaction_type: TransactionType, amount: i64, note: Option<&str>) -> (r:
        Transaction)
        ensures
            r.transaction_type == transaction_type,
            r.amount == amount,
            match note {
                Some(s) => r.note matches Some(t) && t@ == s@,
                None => r.note is None,
            },
    {
        Transaction {
            transaction_type,
            amount,
            note: match note {
                Some(s) => Some(s.to_owned()),
                None => None,
            },
        }
    }
}

impl Clone for Transaction {
    fn clone(&self) -> (r: Self)
        ensures
            r == *self,
    {
        Transaction {
            transaction_type: self.transaction_type,
            amount: self.amount,
            note: match &self.note {
                Some(s) => Some(s.clone()),
                None => None,
            },
        }
    }
}

/// The signed sum of a sequence of movements: additions count
/// positively, withdrawals negatively, initialisations not at all.
pub open spec fn signed_sum(ts: Seq<Transaction>) -> int
    decreases ts.len(),
{
    if ts.len() == 0 {
        0
    } else {
        signed_sum(ts.drop_last()) + ts.last().signed_amount()
    }
}

/// Appending one movement adds exactly its signed amount to the sum.
pub broadcast proof fn lemma_signed_sum_push(ts: Seq<Transaction>, t: Transaction)
    ensures
        #[trigger] signed_sum(ts.push(t)) == signed_sum(ts) + t.signed_amount(),
{
    assert(ts.push(t).drop_last() =~= ts);
}

/// An immutable commit of a batch of transactions, analogous to a
/// commit in a version-control system. Once created it is never
/// mutated.
#[derive(Clone, Debug, PartialEq)]
pub struct Record {
    /// The unique identifier for this record.
    pub id: String,
    /// The message for this record.
    pub message: String,
    /// The time stamp for this record, in seconds since the Unix epoch.
    pub local_commit_time: u64,
    /// The balance the pile has after this record.
    pub amount_after_record: i64,
    /// The movements committed in this record.
    pub transactions: Vec<Transaction>,
}

impl Record {
    pub fn new(
        message: &str,
        time_stamp: u64,
        amount_after_record: i64,
        transactions: &Vec<Transaction>,
    ) -> (r: Record)
        ensures
            r.id@.len() == 21,
            r.message@ == message@,
            r.local_commit_time == time_stamp,
            r.amount_after_record == amount_after_record,
            r.transactions@ == transactions@,
    {
        Record {
            id: fresh_nanoid(),
            message: message.to_owned(),
            local_commit_time: time_stamp,
            amount_after_record,
            transactions: clone_transactions(transactions),
        }
    }

    /// The synthetic first record of a pile, carrying one `Init`
    /// movement of the given amount (zero when none is given).
    pub fn new_init(message: &str, time_stamp: u64, amount_after_record: i64, amount: Option<
        i64,
    >) -> (r: Record)
        ensures
            r.id@.len() == 21,
            r.message@ == message@,
            r.local_commit_time == time_stamp,
            r.amount_after_record == amount_after_record,
            r.transactions@.len() == 1,
            r.transactions@[0].transaction_type == TransactionType::Init,
            r.transactions@[0].amount == (match amount {
                Some(a) => a,
                None => 0,
            }),
            r.transactions@[0].note is None,
    {
        let seeded = Transaction::new(
            TransactionType::Init,
            match amount {
                Some(a) => a,
                None => 0,
            },
            None,
        );
        let mut ts: Vec<Transaction> = Vec::new();
        ts.push(seeded);
        Record::new(message, time_stamp, amount_after_record, &ts)
    }
}

/// An element-for-element copy of a batch of transactions.
pub(crate) fn clone_transactions(ts: &Vec<Transaction>) -> (r: Vec<Transaction>)
    ensures
        r@ == ts@,
{
    let mut r: Vec<Transaction> = Vec::new();
    let mut i: usize = 0;
    while i < ts.len()
        invariant
            i <= ts.len(),
            r@ == ts@.subrange(0, i as int),
        decreases ts.len() - i,
    {
        r.push(ts[i].clone());
        assert(r@ =~= ts@.subrange(0, i as int + 1));
        i = i + 1;
    }
    assert(r@ =~= ts@);
    r
}

} // verus!
