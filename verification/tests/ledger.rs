use budgey::errors::BudgeyError;
use budgey::pile::{Pile, PileType};
use budgey::record_transaction::{Record, Transaction, TransactionType};
use budgey::utils::get_current_timestamp;

fn fresh_pile(name: &str, balance: i64) -> Pile {
    Pile::fork(&Pile::default_main_pile(0), name, Some(balance), 1)
}

#[test]
fn stage_and_commit_first_deposit() {
    // New pile "groceries" at zero; stage Add 50.00; commit "first deposit".
    let pile = fresh_pile("groceries", 0);
    assert_eq!(pile.balance(), 0);

    let deposit = Transaction::new(TransactionType::Add, 5000, Some("paycheck"));
    let staged = pile.stage(&deposit).unwrap();
    assert_eq!(staged.balance(), 5000);

    let committed = staged.commit("first deposit", 99).unwrap();
    assert_eq!(committed.balance(), 5000);
    assert_eq!(committed.records.len(), 2);
    let record = committed.records.last().unwrap();
    assert_eq!(record.amount_after_record, 5000);
    assert_eq!(record.message, "first deposit");
    assert_eq!(record.transactions.len(), 1);
    assert!(committed.current_staged_transactions.is_empty());
}

#[test]
fn restore_discards_staged_transactions() {
    // Balance 50.00; stage Withdraw 20.00 and Add 5.00; restore.
    let pile = fresh_pile("groceries", 5000);
    let withdraw = Transaction::new(TransactionType::Withdraw, 2000, None);
    let add = Transaction::new(TransactionType::Add, 500, None);

    let staged = pile.stage(&withdraw).unwrap().stage(&add).unwrap();
    assert_eq!(staged.balance(), 3500);
    assert_eq!(staged.current_staged_transactions.len(), 2);

    let restored = staged.restore();
    assert_eq!(restored.balance(), 5000);
    assert!(restored.current_staged_transactions.is_empty());
}

#[test]
fn restore_is_idempotent_on_concrete_pile() {
    let pile = fresh_pile("p", 700);
    let staged = pile
        .stage(&Transaction::new(TransactionType::Add, 42, None))
        .unwrap();
    let once = staged.restore();
    let twice = once.clone().restore();
    assert_eq!(once.balance(), twice.balance());
    assert_eq!(once, twice);
}

#[test]
fn fork_seeds_new_pile_with_init_record() {
    // fork("main", "vacation", initial_balance = 100.00)
    let main_pile = Pile::default_main_pile(3);
    let vacation = main_pile.fork("vacation", Some(10000), 4);
    assert_eq!(vacation.balance(), 10000);
    assert_eq!(vacation.get_name(), "vacation");
    assert!(matches!(vacation.pile_type, PileType::UserCreated { .. }));
    assert_eq!(vacation.records.len(), 1);
    let seeded = &vacation.records[0];
    assert_eq!(seeded.amount_after_record, 10000);
    assert_eq!(seeded.transactions.len(), 1);
    assert!(matches!(
        seeded.transactions[0].transaction_type,
        TransactionType::Init
    ));
    assert_eq!(seeded.transactions[0].amount, 10000);
    // distinct identity from "main"
    assert_ne!(vacation.get_name(), main_pile.get_name());
}

#[test]
fn fork_without_initial_balance_inherits_source_balance() {
    let source = fresh_pile("source", 1234);
    let forked = source.fork("copy", None, 9);
    assert_eq!(forked.balance(), 1234);
}

#[test]
fn stage_rejects_negative_amount() {
    let pile = fresh_pile("p", 0);
    let bad = Transaction::new(TransactionType::Add, -1, None);
    assert_eq!(pile.stage(&bad), Err(BudgeyError::InvariantViolation));
}

#[test]
fn commit_with_nothing_staged_fails() {
    let pile = fresh_pile("p", 0);
    assert_eq!(
        pile.commit("nothing", 5),
        Err(BudgeyError::InvariantViolation)
    );
}

#[test]
fn commit_keeps_prior_records() {
    let pile = fresh_pile("p", 0);
    let first = pile
        .stage(&Transaction::new(TransactionType::Add, 100, None))
        .unwrap()
        .commit("one", 10)
        .unwrap();
    let first_ids: Vec<String> = first.records.iter().map(|r| r.id.clone()).collect();
    let second = first
        .stage(&Transaction::new(TransactionType::Withdraw, 30, None))
        .unwrap()
        .commit("two", 11)
        .unwrap();
    assert_eq!(second.records.len(), 3);
    assert_eq!(second.balance(), 70);
    for (i, id) in first_ids.iter().enumerate() {
        assert_eq!(&second.records[i].id, id);
    }
    assert_eq!(second.records[2].message, "two");
    assert_eq!(second.records[2].local_commit_time, 11);
}

#[test]
fn staging_init_leaves_balance_unchanged() {
    let pile = fresh_pile("p", 500);
    let init = Transaction::new(TransactionType::Init, 700, None);
    let staged = pile.stage(&init).unwrap();
    assert_eq!(staged.balance(), 500);
    assert_eq!(staged.current_staged_transactions.len(), 1);
}

#[test]
fn overdraft_is_permitted() {
    let pile = fresh_pile("p", 100);
    let staged = pile
        .stage(&Transaction::new(TransactionType::Withdraw, 250, None))
        .unwrap();
    assert_eq!(staged.balance(), -150);
}

#[test]
fn record_ids_are_21_characters() {
    let record = Record::new("m", 1, 0, &Vec::new());
    assert_eq!(record.id.len(), 21);
    let init = Record::new_init("i", 2, 5, Some(5));
    assert_eq!(init.id.len(), 21);
}

#[test]
fn record_new_init_defaults_missing_amount_to_zero() {
    let init = Record::new_init("i", 2, 0, None);
    assert_eq!(init.transactions.len(), 1);
    assert_eq!(init.transactions[0].amount, 0);
    assert!(init.transactions[0].note.is_none());
}

#[test]
fn default_main_pile_starts_at_zero_with_init_record() {
    let pile = Pile::default_main_pile(8);
    assert_eq!(pile.balance(), 0);
    assert_eq!(pile.get_name(), "main");
    assert_eq!(pile.records.len(), 1);
    assert_eq!(pile.records[0].amount_after_record, 0);
    assert!(pile.current_staged_transactions.is_empty());
}

#[test]
fn restore_with_no_records_keeps_balance() {
    let pile = Pile::new(77, PileType::Main, Vec::new(), Vec::new());
    let restored = pile.restore();
    assert_eq!(restored.balance(), 77);
    assert!(restored.current_staged_transactions.is_empty());
}

#[test]
fn clear_staged_transactions_keeps_balance_and_records() {
    let pile = fresh_pile("p", 10)
        .stage(&Transaction::new(TransactionType::Add, 5, None))
        .unwrap();
    let cleared = pile.clear_staged_transactions();
    assert_eq!(cleared.balance(), 15);
    assert_eq!(cleared.records.len(), 1);
    assert!(cleared.current_staged_transactions.is_empty());
}

#[test]
fn current_timestamp_is_available() {
    let stamp = get_current_timestamp().unwrap();
    // Well after 2020-01-01 and monotone enough for a sanity check.
    assert!(stamp > 1_577_836_800);
}
