use budgey::budget_collection::BudgetCollection;
use budgey::budget_handling::CreateNewBudgetError;
use budgey::budgey_handling::{GetBudgeyStateError, InitBudgeyError, WriteBudgeyStateError};
use budgey::errors::BudgeyError;
use budgey::handlers::InitHandlerError;
use budgey::pile_handling::{CreateNewPileError, SubPileError};
use budgey::use_cases::{InitError, PileError, PileOperationError};

#[test]
fn budget_collection_starts_with_main_and_grows() {
    let collection = BudgetCollection::new_init();
    assert_eq!(collection.budget_names, vec!["main".to_string()]);
    let grown = collection.add_name("extra".to_string());
    assert_eq!(
        grown.budget_names,
        vec!["main".to_string(), "extra".to_string()]
    );
    let rebuilt = BudgetCollection::new(vec!["a".to_string()]);
    assert_eq!(rebuilt.budget_names, vec!["a".to_string()]);
}

#[test]
fn budgey_error_messages_are_distinct_and_present() {
    let kinds = [
        BudgeyError::NotFound,
        BudgeyError::DuplicateName,
        BudgeyError::InvariantViolation,
        BudgeyError::IOFailure,
        BudgeyError::SerializationFailure,
    ];
    for (i, a) in kinds.iter().enumerate() {
        assert!(!a.get_user_message().is_empty());
        for b in kinds.iter().skip(i + 1) {
            assert_ne!(a.get_user_message(), b.get_user_message());
        }
    }
}

#[test]
fn init_error_constructors_wrap_their_cause() {
    assert_eq!(
        InitError::new_from_budgey_error(InitBudgeyError::BudgeyAlreadyExists),
        InitError::CreateBudgeyError(InitBudgeyError::BudgeyAlreadyExists)
    );
    assert_eq!(
        InitError::new_from_budget_error(CreateNewBudgetError::CouldntWriteJson),
        InitError::CreateBudgetError(CreateNewBudgetError::CouldntWriteJson)
    );
    assert_eq!(
        InitError::new_from_pile_error(CreateNewPileError::CouldntWriteJson),
        InitError::CreatePileError(CreateNewPileError::CouldntWriteJson)
    );
}

#[test]
fn pile_error_constructors_wrap_their_cause() {
    assert_eq!(
        PileError::new_from_create_new_pile_error(CreateNewPileError::SubPileError(
            SubPileError::NoSourcePile
        )),
        PileError::CreateNewPileError(CreateNewPileError::SubPileError(
            SubPileError::NoSourcePile
        ))
    );
    assert_eq!(
        PileError::new_from_pile_operation_error(PileOperationError::BalanceError),
        PileError::PileOperationError(PileOperationError::BalanceError)
    );
}

#[test]
fn init_error_messages_follow_the_cause() {
    assert_eq!(
        InitError::new_from_budget_error(CreateNewBudgetError::BudgetDirectoryAlreadyExists)
            .get_user_message(),
        "That budget name was already found in your budgey directory."
    );
    assert_eq!(
        InitError::new_from_pile_error(CreateNewPileError::SubPileError(
            SubPileError::NoSourcePile
        ))
        .get_user_message(),
        "The source pile couldn't be found."
    );
    assert_eq!(
        InitError::new_from_budgey_error(InitBudgeyError::BudgeyAlreadyExists).get_user_message(),
        "The budgey directory already exists."
    );
    assert_eq!(
        InitError::new_from_budgey_error(InitBudgeyError::WriteNewBudgeyStateError(
            WriteBudgeyStateError::CouldntWriteBudgeyState
        ))
        .get_user_message(),
        "Something went wrong with writing the budgey state."
    );
}

#[test]
fn state_round_trip_error_messages_spell_out_the_failure() {
    assert_eq!(
        GetBudgeyStateError::BudgeyStateFileNotFound.get_user_message(),
        "The budgey state file couldn't be found."
    );
    assert_eq!(
        GetBudgeyStateError::DeserialiseBudgeyStateError.get_user_message(),
        "Something went wrong with deserialising the budgey state."
    );
    assert_eq!(
        WriteBudgeyStateError::CouldntWriteBudgeyState.get_user_message(),
        "Something went wrong with writing the budgey state."
    );
    assert_eq!(
        InitHandlerError::CreateBudgeyDirFailed.get_user_message(),
        "Something went wrong when trying to initialise the budgey directory."
    );
}
