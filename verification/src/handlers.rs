//! The init handler's interface and its error kinds.

use vstd::prelude::*;

verus! {

/// Why handling the init command failed.
#[derive(Clone, Copy, Debug, PartialEq, Eq, Structural)]
pub enum InitHandlerError {
    CreateBudgeyDirFailed,
    CreateNamedBudgetDirFailed,
    BudgetDirectoryAlreadyExists,
}

impl InitHandlerError {
    /// The message shown to the user for this failure.
    pub open spec fn spec_user_message(self) -> Seq<char> {
        match self {
            InitHandlerError::CreateBudgeyDirFailed => {
                "Something went wrong when trying to initialise the budgey directory."@
            },
            InitHandlerError::CreateNamedBudgetDirFailed => {
                "Something went wrong when trying to initialise the new budget directory."@
            },
            InitHandlerError::BudgetDirectoryAlreadyExists => {
                "That budget name was already found in your budgey directory."@
            },
        }
    }

    pub fn get_user_message(&self) -> (r: &'static str)
        ensures
            r@ == self.spec_user_message(),
    {
        match self {
            InitHandlerError::CreateBudgeyDirFailed => {
                "Something went wrong when trying to initialise the budgey directory."
            },
            InitHandlerError::CreateNamedBudgetDirFailed => {
                "Something went wrong when trying to initialise the new budget directory."
            },
            InitHandlerError::BudgetDirectoryAlreadyExists => {
                "That budget name was already found in your budgey directory."
            },
        }
    }
}

/// Handling the init command end to end, against whatever storage the
/// implementor has.
pub trait InitHandler {
    fn handle(&self, budget_name: &str) -> Result<(), InitHandlerError>;
}

} // verus!
