//! The pile ledger: a named sub-ledger holding a balance, an immutable
//! committed record history, and a queue of staged transactions.
//!
//! Every operation is pure: it takes a pile snapshot and returns a new
//! snapshot (or a typed error), never mutating in place. A pile is
//! well-formed when its balance equals the balance after its last
//! record plus the signed sum of its staged transactions; the
//! operations below establish and preserve that invariant.

use vstd::prelude::*;

verus! {

use crate::errors::BudgeyError;
use crate::record_transaction::{Record, Transaction, TransactionType, signed_sum};
use crate::record_transaction::lemma_signed_sum_push;

broadcast use lemma_signed_sum_push;

/// The identity of a pile: the distinguished "main" pile of a budget,
/// or a user-created pile with its own name.
#[derive(Clone, Debug, PartialEq)]
pub enum PileType {
    Main,
    UserCreated { pile_name: String },
}

impl PileType {
    /// The name this identity answers to: "main" for the main pile,
    /// otherwise the user-chosen name.
    pub open spec fn name_view(self) -> Seq<char> {
        match self {
            PileType::Main => "main"@,
            PileType::UserCreated { pile_name } => pile_name@,
        }
    }
}

/// A sub-ledger: the current balance, the committed record history,
/// and the staged transactions not yet committed.
#[derive(Clone, Debug, PartialEq)]
pub struct Pile {
    /// The balance in minor units, staged transactions included.
    pub current_balance: i64,
    /// Whether this is the budget's main pile or a user-created one.
    pub pile_type: PileType,
    /// The committed history, oldest first; append-only.
    pub records: Vec<Record>,
    /// The staged transactions, oldest first.
    pub current_staged_transactions: Vec<Transaction>,
}

/// The balance `restore` returns to: the balance after the last
/// committed record, or the current balance when no record exists.
pub open spec fn restored_balance(p: Pile) -> int {
    if p.records@.len() > 0 {
        p.records@.last().amount_after_record as int
    } else {
        p.current_balance as int
    }
}

impl Pile {
    /// A pile the data model admits: at least the synthetic `Init`
    /// record exists, the balance reflects the last record plus the
    /// staged movements, and no staged amount is negative.
    pub open spec fn wf(self) -> bool {
        &&& self.records@.len() >= 1
        &&& self.current_balance as int == self.records@.last().amount_after_record as int
            + signed_sum(self.current_staged_transactions@)
        &&& forall|i: int|
            0 <= i < self.current_staged_transactions@.len() ==> (
            #[trigger] self.current_staged_transactions@[i]).valid()
    }

    /// The name of this pile.
    pub fn get_name(&self) -> (r: String)
        ensures
            r@ == self.pile_type.name_view(),
    {
        match &self.pile_type {
            PileType::Main => "main".to_owned(),
            PileType::UserCreated { pile_name } => pile_name.clone(),
        }
    }

    /// The current balance; a pure accessor with no failure mode.
    pub fn balance(&self) -> (r: i64)
        ensures
            r == self.current_balance,
    {
        self.current_balance
    }

    /// A pile assembled from its parts, exactly as given.
    pub fn new(
        balance: i64,
        pile_type: PileType,
        records: Vec<Record>,
        transactions: Vec<Transaction>,
    ) -> (r: Pile)
        ensures
            r.current_balance == balance,
            r.pile_type == pile_type,
            r.records == records,
            r.current_staged_transactions == transactions,
    {
        Pile { current_balance: balance, pile_type, records, current_staged_transactions: transactions }
    }

    /// A user-created pile over the given record history, with nothing
    /// staged.
    pub fn new_user_created(balance: i64, pile_name: &str, source_record_history: Vec<
        Record,
    >) -> (r: Pile)
        ensures
            r.current_balance == balance,
            r.pile_type matches PileType::UserCreated { pile_name: n } && n@ == pile_name@,
            r.records == source_record_history,
            r.current_staged_transactions@.len() == 0,
    {
        Pile {
            current_balance: balance,
            pile_type: PileType::UserCreated { pile_name: pile_name.to_owned() },
            records: source_record_history,
            current_staged_transactions: Vec::new(),
        }
    }

    /// The main pile a fresh budget starts with: balance zero and one
    /// synthetic `Init` record of zero.
    pub fn default_main_pile(time_stamp: u64) -> (r: Pile)
        ensures
            r.current_balance == 0,
            r.pile_type == PileType::Main,
            r.records@.len() == 1,
            r.records@[0].amount_after_record == 0,
            r.records@[0].local_commit_time == time_stamp,
            r.current_staged_transactions@.len() == 0,
            r.wf(),
    {
        let init_record = Record::new_init("Initialised main", time_stamp, 0, Some(0));
        let mut records: Vec<Record> = Vec::new();
        records.push(init_record);
        Pile {
            current_balance: 0,
            pile_type: PileType::Main,
            records,
            current_staged_transactions: Vec::new(),
        }
    }

    /// Appends a movement to the staged queue and applies its signed
    /// amount to the balance. The committed history is untouched.
    pub fn add_transaction(self, transaction: &Transaction) -> (r: Pile)
        requires
            i64::MIN <= self.current_balance + transaction.signed_amount() <= i64::MAX,
        ensures
            r.pile_type == self.pile_type,
            r.records@ == self.records@,
            r.current_staged_transactions@ == self.current_staged_transactions@.push(*transaction),
            r.current_balance == self.current_balance + transaction.signed_amount(),
    {
        let new_balance: i64 = match transaction.transaction_type {
            TransactionType::Add => self.current_balance + transaction.amount,
            TransactionType::Withdraw => self.current_balance - transaction.amount,
            TransactionType::Init => self.current_balance,
        };
        let mut staged = self.current_staged_transactions;
        staged.push(transaction.clone());
        Pile {
            current_balance: new_balance,
            pile_type: self.pile_type,
            records: self.records,
            current_staged_transactions: staged,
        }
    }

    /// Stages a movement: validates that its amount is not negative,
    /// then appends it to the staged queue and adjusts the balance.
    /// Nothing prevents the balance from going negative; overdrafts
    /// are a deliberate policy of this ledger.
    pub fn stage(self, transaction: &Transaction) -> (r: Result<Pile, BudgeyError>)
        requires
            transaction.valid() ==> i64::MIN <= self.current_balance + transaction.signed_amount()
                <= i64::MAX,
        ensures
            r is Ok <==> transaction.valid(),
            r matches Err(e) ==> e == BudgeyError::InvariantViolation,
            r matches Ok(p) ==> {
                &&& p.pile_type == self.pile_type
                &&& p.records@ == self.records@
                &&& p.current_staged_transactions@ == self.current_staged_transactions@.push(
                    *transaction,
                )
                &&& p.current_balance == self.current_balance + transaction.signed_amount()
                &&& self.wf() ==> p.wf()
            },
    {
        if transaction.amount < 0 {
            return Err(BudgeyError::InvariantViolation);
        }
        Ok(self.add_transaction(transaction))
    }

    /// Appends a record to the committed history; balance and staged
    /// queue are untouched.
    pub fn add_record(self, record: Record) -> (r: Pile)
        ensures
            r.current_balance == self.current_balance,
            r.pile_type == self.pile_type,
            r.records@ == self.records@.push(record),
            r.current_staged_transactions@ == self.current_staged_transactions@,
    {
        let mut records = self.records;
        records.push(record);
        Pile {
            current_balance: self.current_balance,
            pile_type: self.pile_type,
            records,
            current_staged_transactions: self.current_staged_transactions,
        }
    }

    /// Discards the staged queue without adjusting the balance. Only
    /// meaningful right after the staged movements were folded into a
    /// record; `commit` does exactly that.
    pub fn clear_staged_transactions(self) -> (r: Pile)
        ensures
            r.current_balance == self.current_balance,
            r.pile_type == self.pile_type,
            r.records@ == self.records@,
            r.current_staged_transactions@.len() == 0,
    {
        Pile {
            current_balance: self.current_balance,
            pile_type: self.pile_type,
            records: self.records,
            current_staged_transactions: Vec::new(),
        }
    }

    /// Commits the staged transactions into a new immutable record at
    /// the given time, appends it to the history, and clears the
    /// staged queue. Fails if and only if nothing is staged; the
    /// balance is unchanged, since it already reflects the staged
    /// movements.
    pub fn commit(self, message: &str, time_stamp: u64) -> (r: Result<Pile, BudgeyError>)
        ensures
            r is Ok <==> self.current_staged_transactions@.len() > 0,
            r matches Err(e) ==> e == BudgeyError::InvariantViolation,
            r matches Ok(p) ==> {
                &&& p.current_balance == self.current_balance
                &&& p.pile_type == self.pile_type
                &&& p.current_staged_transactions@.len() == 0
                &&& p.records@.len() == self.records@.len() + 1
                &&& p.records@.drop_last() == self.records@
                &&& p.records@.last().message@ == message@
                &&& p.records@.last().local_commit_time == time_stamp
                &&& p.records@.last().amount_after_record == self.current_balance
                &&& p.records@.last().transactions@ == self.current_staged_transactions@
                &&& p.records@.last().id@.len() == 21
                &&& self.wf() ==> p.wf()
            },
    {
        if self.current_staged_transactions.len() == 0 {
            return Err(BudgeyError::InvariantViolation);
        }
        let record = Record::new(
            message,
            time_stamp,
            self.current_balance,
            &self.current_staged_transactions,
        );
        let mut records = self.records;
        records.push(record);
        proof {
            assert(records@.drop_last() =~= self.records@);
        }
        Ok(
            Pile {
                current_balance: self.current_balance,
                pile_type: self.pile_type,
                records,
                current_staged_transactions: Vec::new(),
            },
        )
    }

    /// Restores the pile to its last committed record: the balance
    /// returns to that record's balance (or stays put when no record
    /// exists) and the staged queue is discarded unconditionally.
    pub fn restore(self) -> (r: Pile)
        ensures
            r.pile_type == self.pile_type,
            r.records@ == self.records@,
            r.current_staged_transactions@.len() == 0,
            r.current_balance == restored_balance(self),
            self.records@.len() > 0 ==> r.wf(),
    {
        let new_balance: i64 = if self.records.len() > 0 {
            self.records[self.records.len() - 1].amount_after_record
        } else {
            self.current_balance
        };
        Pile {
            current_balance: new_balance,
            pile_type: self.pile_type,
            records: self.records,
            current_staged_transactions: Vec::new(),
        }
    }

    /// Forks a new pile from this one at the given time: the new pile
    /// takes the given initial balance (this pile's current balance
    /// when none is given), a fresh user-created identity, and a
    /// record history seeded with a single synthetic `Init` record of
    /// that balance. Seeding fresh history, rather than copying the
    /// source's records, is this library's deliberate fork policy.
    pub fn fork(&self, new_pile_name: &str, initial_balance: Option<i64>, time_stamp: u64) -> (r:
        Pile)
        ensures
            r.pile_type matches PileType::UserCreated { pile_name: n } && n@ == new_pile_name@,
            r.current_balance == (match initial_balance {
                Some(b) => b,
                None => self.current_balance,
            }),
            r.records@.len() == 1,
            r.records@[0].amount_after_record == r.current_balance,
            r.records@[0].local_commit_time == time_stamp,
            r.records@[0].transactions@.len() == 1,
            r.records@[0].transactions@[0].transaction_type == TransactionType::Init,
            r.records@[0].transactions@[0].amount == r.current_balance,
            r.current_staged_transactions@.len() == 0,
            r.wf(),
    {
        let balance: i64 = match initial_balance {
            Some(b) => b,
            None => self.current_balance,
        };
        let init_record = Record::new_init("Initialised pile", time_stamp, balance, Some(balance));
        let mut records: Vec<Record> = Vec::new();
        records.push(init_record);
        Pile {
            current_balance: balance,
            pile_type: PileType::UserCreated { pile_name: new_pile_name.to_owned() },
            records,
            current_staged_transactions: Vec::new(),
        }
    }
}

/// For any sequence of `stage` calls followed by one `commit`, the
/// committed record's balance equals the pile's balance immediately
/// before those stages plus the signed sum of the staged transactions.
///
/// `before` is the pile before staging began (nothing staged);
/// `staged` is the pile after any number of `stage` calls, which by
/// `stage`'s contract keep the record history and well-formedness; and
/// the record fields are exactly what `commit`'s contract gives the
/// new record.
pub proof fn lemma_record_balance_after(before: Pile, staged: Pile, committed: Record)
    requires
        before.wf(),
        before.current_staged_transactions@.len() == 0,
        staged.wf(),
        staged.records@ == before.records@,
        committed.amount_after_record == staged.current_balance,
        committed.transactions@ == staged.current_staged_transactions@,
    ensures
        committed.amount_after_record as int == before.current_balance as int + signed_sum(
            committed.transactions@,
        ),
{
}

/// `restore` after any number of stages with zero commits returns the
/// balance to where it stood before staging began (and `restore`'s own
/// contract leaves the staged queue empty).
///
/// `before` is the pile before staging began (nothing staged);
/// `staged` is the pile after any number of `stage` calls, which keep
/// the record history and well-formedness.
pub proof fn lemma_restore_returns_to_balance_before_staging(before: Pile, staged: Pile)
    requires
        before.wf(),
        before.current_staged_transactions@.len() == 0,
        staged.wf(),
        staged.records@ == before.records@,
    ensures
        restored_balance(staged) == before.current_balance,
{
}

/// `restore` is idempotent: a second `restore` finds nothing staged
/// and a balance already at the last record, so it changes nothing.
///
/// `once` is any pile satisfying `restore`'s contract for some input
/// `p`; restoring `once` again yields its own balance and the same
/// records and staged queue.
pub proof fn lemma_restore_idempotent(p: Pile, once: Pile)
    requires
        once.records@ == p.records@,
        once.current_staged_transactions@.len() == 0,
        once.current_balance == restored_balance(p),
    ensures
        restored_balance(once) == once.current_balance,
{
}

} // verus!
