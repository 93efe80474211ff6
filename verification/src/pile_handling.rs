//! The error kinds of pile storage round-trips. The round-trips
//! themselves — creating, reading and deleting pile documents — live
//! with the callers.

use vstd::prelude::*;

verus! {

use crate::budget_handling::GetBudgetError;

/// Failure to derive a new pile from its source.
#[derive(Clone, Copy, Debug, PartialEq, Eq, Structural)]
pub enum SubPileError {
    NoSourcePile,
}

/// Failure to create a pile on disk.
#[derive(Clone, Copy, Debug, PartialEq, Eq, Structural)]
pub enum CreateNewPileError {
    SubPileError(SubPileError),
    PileDirectoryAlreadyExists,
    CouldntCreatePileDirectory,
    CouldntWriteJson,
}

/// Failure to load a pile document by name.
#[derive(Clone, Copy, Debug, PartialEq, Eq, Structural)]
pub enum GetPileByNameError {
    GetBudgetError(GetBudgetError),
    NoPileJsonError,
    PileDeserializationError,
    NamedPileNotInBudget,
}

/// Failure to load every pile of a budget.
#[derive(Clone, Copy, Debug, PartialEq, Eq, Structural)]
pub enum GetPilesError {
    GetPileByNameError(GetPileByNameError),
}

} // verus!
