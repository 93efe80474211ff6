//! The errors the top-level use cases report to the user, with their
//! user-facing messages.

use vstd::prelude::*;

verus! {

use crate::budget_handling::CreateNewBudgetError;
use crate::budgey_handling::InitBudgeyError;
use crate::pile_handling::{CreateNewPileError, GetPilesError, SubPileError};

/// Why initialising the ledger failed.
#[derive(Clone, Copy, Debug, PartialEq, Eq, Structural)]
pub enum InitError {
    CreateBudgeyError(InitBudgeyError),
    CreateBudgetError(CreateNewBudgetError),
    CreatePileError(CreateNewPileError),
}

impl InitError {
    pub fn new_from_budgey_error(e: InitBudgeyError) -> (r: InitError)
        ensures
            r == InitError::CreateBudgeyError(e),
    {
        InitError::CreateBudgeyError(e)
    }

    pub fn new_from_budget_error(e: CreateNewBudgetError) -> (r: InitError)
        ensures
            r == InitError::CreateBudgetError(e),
    {
        InitError::CreateBudgetError(e)
    }

    pub fn new_from_pile_error(e: CreateNewPileError) -> (r: InitError)
        ensures
            r == InitError::CreatePileError(e),
    {
        InitError::CreatePileError(e)
    }

    /// The message shown to the user for this failure.
    pub open spec fn spec_user_message(self) -> Seq<char> {
        match self {
            InitError::CreateBudgetError(e) => match e {
                CreateNewBudgetError::CreateNamedBudgetDirFailed => {
                    "Something went wrong when trying to initialise the new budget directory."@
                },
                CreateNewBudgetError::BudgetDirectoryAlreadyExists => {
                    "That budget name was already found in your budgey directory."@
                },
                CreateNewBudgetError::CouldntConvertToJson => {
                    "Something went wrong with saving the budget."@
                },
                CreateNewBudgetError::CouldntWriteJson => {
                    "Something went wrong with writing the json."@
                },
            },
            InitError::CreatePileError(e) => match e {
                CreateNewPileError::PileDirectoryAlreadyExists => {
                    "The pile has already been made."@
                },
                CreateNewPileError::CouldntCreatePileDirectory => {
                    "The pile directory couldn't be created."@
                },
                CreateNewPileError::CouldntWriteJson => {
                    "Something went wrong with writing the json."@
                },
                CreateNewPileError::SubPileError(sub) => match sub {
                    SubPileError::NoSourcePile => "The source pile couldn't be found."@,
                },
            },
            InitError::CreateBudgeyError(e) => e.spec_user_message(),
        }
    }

    pub fn get_user_message(&self) -> (r: &'static str)
        ensures
            r@ == self.spec_user_message(),
    {
        match self {
            InitError::CreateBudgetError(e) => match e {
                CreateNewBudgetError::CreateNamedBudgetDirFailed => {
                    "Something went wrong when trying to initialise the new budget directory."
                },
                CreateNewBudgetError::BudgetDirectoryAlreadyExists => {
                    "That budget name was already found in your budgey directory."
                },
                CreateNewBudgetError::CouldntConvertToJson => {
                    "Something went wrong with saving the budget."
                },
                CreateNewBudgetError::CouldntWriteJson => {
                    "Something went wrong with writing the json."
                },
            },
            InitError::CreatePileError(e) => match e {
                CreateNewPileError::PileDirectoryAlreadyExists => "The pile has already been made.",
                CreateNewPileError::CouldntCreatePileDirectory => {
                    "The pile directory couldn't be created."
                },
                CreateNewPileError::CouldntWriteJson => {
                    "Something went wrong with writing the json."
                },
                CreateNewPileError::SubPileError(sub) => match sub {
                    SubPileError::NoSourcePile => "The source pile couldn't be found.",
                },
            },
            InitError::CreateBudgeyError(e) => e.get_user_message(),
        }
    }
}

/// Why a pile operation at the use-case level failed.
#[derive(Clone, Copy, Debug, PartialEq, Eq, Structural)]
pub enum PileOperationError {
    MergeError,
    BalanceError,
    ListError,
    ViewError,
    RemoveError,
}

/// Why handling a pile command failed.
#[derive(Clone, Copy, Debug, PartialEq, Eq, Structural)]
pub enum PileError {
    CreateNewPileError(CreateNewPileError),
    GetPilesError(GetPilesError),
    PileOperationError(PileOperationError),
}

impl PileError {
    pub fn new_from_create_new_pile_error(e: CreateNewPileError) -> (r: PileError)
        ensures
            r == PileError::CreateNewPileError(e),
    {
        PileError::CreateNewPileError(e)
    }

    pub fn new_from_pile_operation_error(e: PileOperationError) -> (r: PileError)
        ensures
            r == PileError::PileOperationError(e),
    {
        PileError::PileOperationError(e)
    }
}

} // verus!
