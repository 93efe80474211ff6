//! Registry-level budget operations — deleting and switching — and the
//! error kinds their storage round-trips report.
//!
//! The decisions here are pure: they take the loaded registry and
//! return the registry to persist, or say exactly why not. Reading and
//! writing the documents, and removing directories, stay with the
//! callers; the wrapping error variants exist for them to report those
//! failures under.

use vstd::prelude::*;

verus! {

use crate::budgey_handling::{GetBudgeyStateError, WriteBudgeyStateError};
use crate::budgey_state::BudgeyState;
use crate::utils::{
    contains_name, vec_contains_name, str_eq, lemma_filter_keeps_contains,
    lemma_filter_keeps_distinct_names,
};

/// Failure to load a budget document.
#[derive(Clone, Copy, Debug, PartialEq, Eq, Structural)]
pub enum GetBudgetError {
    GetBudgetFileError,
    DeserialieBudgetJsonError,
}

/// Failure to create a budget on disk.
#[derive(Clone, Copy, Debug, PartialEq, Eq, Structural)]
pub enum CreateNewBudgetError {
    CreateNamedBudgetDirFailed,
    BudgetDirectoryAlreadyExists,
    CouldntConvertToJson,
    CouldntWriteJson,
}

/// Failure to load every budget the registry knows.
#[derive(Clone, Copy, Debug, PartialEq, Eq, Structural)]
pub enum GetAllBudgetsError {
    GetBudgeyStateError(GetBudgeyStateError),
    BudgeyDirNotFound,
    ReadDirError,
    GetBudgetsFromNamesError,
}

/// Failure to remove a budget's directory.
#[derive(Clone, Copy, Debug, PartialEq, Eq, Structural)]
pub enum DeleteBudgetDirectoryError {
    CouldntDeleteBudgetDirectory,
}

/// Why deleting a budget failed. Only `BudgetDoesntExist` arises from
/// the decision itself; the other variants wrap storage failures the
/// caller runs into while persisting the decision.
#[derive(Clone, Copy, Debug, PartialEq, Eq, Structural)]
pub enum DeleteBudgetError {
    BudgetDoesntExist,
    GetBudgeyStateError(GetBudgeyStateError),
    WriteBudgeyStateError(WriteBudgeyStateError),
    DeleteBudgetDirectoryError(DeleteBudgetDirectoryError),
}

/// Why switching the focused budget failed. Only the first two
/// variants arise from the decision itself.
#[derive(Clone, Copy, Debug, PartialEq, Eq, Structural)]
pub enum SwitchBudgetError {
    AlreadyInBudgetError,
    BudgetDoesntExistError,
    GetBudgeyStateError(GetBudgeyStateError),
    WriteBudgeyStateError(WriteBudgeyStateError),
}

/// Deletes the named budget from the registry. Fails with
/// `BudgetDoesntExist` if and only if the name is unknown. The focus
/// is left unchanged — also when the focused budget itself is deleted;
/// the caller must re-focus explicitly.
pub fn delete_budget(registry: &BudgeyState, budget_name: &str) -> (r: Result<
    BudgeyState,
    DeleteBudgetError,
>)
    ensures
        r is Ok <==> contains_name(registry.budget_names@, budget_name@),
        r matches Err(e) ==> e == DeleteBudgetError::BudgetDoesntExist,
        r matches Ok(s) ==> {
            &&& s.budget_names@ == registry.budget_names@.filter(|n: String| n@ != budget_name@)
            &&& s.current_focused_budget_name == registry.current_focused_budget_name
            &&& (registry.wf() && registry.current_focused_budget_name@ != budget_name@) ==> s.wf()
        },
{
    if !vec_contains_name(&registry.budget_names, budget_name) {
        return Err(DeleteBudgetError::BudgetDoesntExist);
    }
    let remaining = registry.remove_budget_name(budget_name);
    proof {
        let pred = |n: String| n@ != budget_name@;
        if registry.wf() && registry.current_focused_budget_name@ != budget_name@ {
            lemma_filter_keeps_distinct_names(registry.budget_names@, pred);
            lemma_filter_keeps_contains(
                registry.budget_names@,
                pred,
                registry.current_focused_budget_name@,
            );
        }
    }
    Ok(remaining)
}

/// Switches the focus to the named budget. Fails with
/// `AlreadyInBudgetError` when that budget is already focused, and
/// with `BudgetDoesntExistError` when the name is unknown; either way
/// the registry is left as it was.
pub fn switch_budget(registry: &BudgeyState, new_budget_name: &str) -> (r: Result<
    BudgeyState,
    SwitchBudgetError,
>)
    ensures
        r is Ok <==> (registry.current_focused_budget_name@ != new_budget_name@ && contains_name(
            registry.budget_names@,
            new_budget_name@,
        )),
        r matches Err(e) ==> e == (if registry.current_focused_budget_name@ == new_budget_name@ {
            SwitchBudgetError::AlreadyInBudgetError
        } else {
            SwitchBudgetError::BudgetDoesntExistError
        }),
        r matches Ok(s) ==> {
            &&& s.budget_names@ == registry.budget_names@
            &&& s.current_focused_budget_name@ == new_budget_name@
            &&& registry.wf() ==> s.wf()
        },
{
    if str_eq(registry.current_focused_budget_name.as_str(), new_budget_name) {
        return Err(SwitchBudgetError::AlreadyInBudgetError);
    }
    if !vec_contains_name(&registry.budget_names, new_budget_name) {
        return Err(SwitchBudgetError::BudgetDoesntExistError);
    }
    Ok(registry.change_focused_budget_name(new_budget_name))
}

} // verus!
