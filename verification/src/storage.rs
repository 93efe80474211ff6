//! The narrow interfaces behind which the storage collaborator stands.
//!
//! The core works on snapshots and never touches the filesystem; a
//! caller implements these traits over whatever storage it has and
//! runs the read-modify-write cycle itself. No behaviour is assumed of
//! an implementation here: everything the core guarantees is stated on
//! the pure operations, for every value a load could return.

use vstd::prelude::*;

verus! {

use crate::budget::Budget;
use crate::budget_handling::CreateNewBudgetError;
use crate::budgey_handling::InitBudgeyError;
use crate::budgey_state::BudgeyState;
use crate::errors::BudgeyError;
use crate::pile::Pile;
use crate::pile_handling::CreateNewPileError;

/// Writing, reading and querying the persisted registry document.
pub trait StateIO {
    fn write_budgey_state(&self, state: &BudgeyState) -> Result<(), BudgeyError>;

    fn read_budgey_state(&self) -> Result<BudgeyState, BudgeyError>;

    fn check_state_initialised(&self) -> Result<bool, BudgeyError>;
}

/// Persisting budget documents.
pub trait BudgetIO {
    fn create_new_budget(&self, budget: &Budget) -> Result<(), BudgeyError>;

    fn get_current_budget(&self, context: &crate::budgey_context::BudgeyContext) -> Result<
        Budget,
        BudgeyError,
    >;
}

/// Persisting pile documents within the focused budget.
pub trait PileIO {
    fn get_current_pile(&self, current_budget: &Budget) -> Result<Pile, BudgeyError>;

    fn update_pile(&self, new_pile: &Pile) -> Result<(), BudgeyError>;

    fn get_pile(&self, pile_name: &str) -> Result<Pile, BudgeyError>;

    fn maybe_get_pile(&self, pile_name: &str, current_budget: &Budget) -> Result<
        Option<Pile>,
        BudgeyError,
    >;

    fn create_new_pile(&self, pile: &Pile) -> Result<(), BudgeyError>;

    fn delete_pile(&self, pile_name: &str, current_budget: &Budget) -> Result<(), BudgeyError>;
}

/// Raw directory and file access.
pub trait FileHandler {
    fn create_directory(path_to_directory: &str) -> Result<(), BudgeyError>;

    fn write_to_file(path_to_file: &str, contents: &str) -> Result<(), BudgeyError>;

    fn read_from_file(path_to_dir: &str, file_name: &str) -> Result<String, BudgeyError>;
}

/// Failure to tell whether the ledger's root directory exists.
#[derive(Clone, Copy, Debug, PartialEq, Eq, Structural)]
pub enum CheckBudgeyExistsError {
    SomethingWentWrong,
}

/// Creating and probing the ledger's root directory.
pub trait BudgeyRepository {
    fn init_budgey(&self) -> Result<(), InitBudgeyError>;

    fn check_budgey_exists(&self) -> Result<bool, CheckBudgeyExistsError>;
}

/// Persisting budgets at the repository level.
pub trait BudgetRepository {
    fn create_new_budget(&self, budget: Budget) -> Result<(), CreateNewBudgetError>;
}

/// Persisting piles at the repository level.
pub trait PileRepository {
    fn create_new_pile(&self, pile: Pile, budget_name: &str) -> Result<(), CreateNewPileError>;

    fn get_all_piles(&self) -> Result<Vec<Pile>, CreateNewPileError>;

    fn update_pile(&self, pile: Pile) -> Result<(), CreateNewPileError>;

    fn delete_pile(&self, pile_name: &str) -> Result<(), CreateNewPileError>;
}

} // verus!
