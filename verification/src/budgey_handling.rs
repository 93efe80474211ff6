//! Errors of the registry's storage round-trips, and the local
//! configuration handed in at startup.
//!
//! The storage collaborator itself lives with the callers; the core
//! only defines the error kinds it reports and their user-facing
//! messages.

use vstd::prelude::*;

verus! {

/// Failure to read the persisted registry document.
#[derive(Clone, Copy, Debug, PartialEq, Eq, Structural)]
pub enum GetBudgeyStateError {
    BudgeyStateFileNotFound,
    ErrorReadingBudgeyState,
    DeserialiseBudgeyStateError,
}

impl GetBudgeyStateError {
    /// The message shown to the user for this failure.
    pub open spec fn spec_user_message(self) -> Seq<char> {
        match self {
            GetBudgeyStateError::BudgeyStateFileNotFound => {
                "The budgey state file couldn't be found."@
            },
            GetBudgeyStateError::ErrorReadingBudgeyState => {
                "Something went wrong with reading the budgey state."@
            },
            GetBudgeyStateError::DeserialiseBudgeyStateError => {
                "Something went wrong with deserialising the budgey state."@
            },
        }
    }

    pub fn get_user_message(&self) -> (r: &'static str)
        ensures
            r@ == self.spec_user_message(),
    {
        match self {
            GetBudgeyStateError::BudgeyStateFileNotFound => {
                "The budgey state file couldn't be found."
            },
            GetBudgeyStateError::ErrorReadingBudgeyState => {
                "Something went wrong with reading the budgey state."
            },
            GetBudgeyStateError::DeserialiseBudgeyStateError => {
                "Something went wrong with deserialising the budgey state."
            },
        }
    }
}

/// Failure to write the persisted registry document.
#[derive(Clone, Copy, Debug, PartialEq, Eq, Structural)]
pub enum WriteBudgeyStateError {
    CouldntWriteBudgeyState,
}

impl WriteBudgeyStateError {
    /// The message shown to the user for this failure.
    pub open spec fn spec_user_message(self) -> Seq<char> {
        "Something went wrong with writing the budgey state."@
    }

    pub fn get_user_message(&self) -> (r: &'static str)
        ensures
            r@ == self.spec_user_message(),
    {
        "Something went wrong with writing the budgey state."
    }
}

/// Failure to initialise the ledger's root directory.
#[derive(Clone, Copy, Debug, PartialEq, Eq, Structural)]
pub enum InitBudgeyError {
    BudgeyAlreadyExists,
    BudgeyCreationFailed,
    WriteNewBudgeyStateError(WriteBudgeyStateError),
}

impl InitBudgeyError {
    /// The message shown to the user for this failure.
    pub open spec fn spec_user_message(self) -> Seq<char> {
        match self {
            InitBudgeyError::BudgeyAlreadyExists => "The budgey directory already exists."@,
            InitBudgeyError::BudgeyCreationFailed => "The budgey directory couldn't be created."@,
            InitBudgeyError::WriteNewBudgeyStateError(e) => e.spec_user_message(),
        }
    }

    pub fn get_user_message(&self) -> (r: &'static str)
        ensures
            r@ == self.spec_user_message(),
    {
        match self {
            InitBudgeyError::BudgeyAlreadyExists => "The budgey directory already exists.",
            InitBudgeyError::BudgeyCreationFailed => "The budgey directory couldn't be created.",
            InitBudgeyError::WriteNewBudgeyStateError(e) => e.get_user_message(),
        }
    }
}

/// The configuration handed in at startup: where the ledger lives on
/// disk. Resolving it (from a home directory or elsewhere) is the
/// caller's business.
#[derive(Clone, Debug, PartialEq)]
pub struct LocalConfig {
    /// The path to the ledger's root directory.
    pub budgey_dir: String,
}

} // verus!
