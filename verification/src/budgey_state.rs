//! The registry: the top-level persisted index of budget names plus
//! the currently focused budget.
//!
//! Names are unique within the registry and the focused name is one of
//! them. Deleting the focused budget deliberately leaves the focus
//! dangling until the caller sets a new one — the registry never picks
//! a replacement on its own.

use vstd::prelude::*;

verus! {

use crate::errors::BudgeyError;
use crate::utils::{contains_name, unique_names, vec_contains_name, clone_strings};

/// The persisted index: every known budget name and the focused one.
#[derive(Clone, Debug, PartialEq)]
pub struct BudgeyState {
    /// The name of the currently focused budget.
    pub current_focused_budget_name: String,
    /// The names of all known budgets, in creation order.
    pub budget_names: Vec<String>,
}

impl BudgeyState {
    /// A registry the data model admits: budget names are unique and
    /// the focused name is one of them.
    pub open spec fn wf(self) -> bool {
        &&& unique_names(self.budget_names@)
        &&& contains_name(self.budget_names@, self.current_focused_budget_name@)
    }

    /// A registry assembled from the given names and focused name,
    /// exactly as given.
    pub fn new(budget_names: &Vec<String>, current_focused_budget: &str) -> (r: BudgeyState)
        ensures
            r.budget_names@ == budget_names@,
            r.current_focused_budget_name@ == current_focused_budget@,
    {
        BudgeyState {
            budget_names: clone_strings(budget_names),
            current_focused_budget_name: current_focused_budget.to_owned(),
        }
    }

    /// The registry of a fresh installation: one budget, focused.
    pub fn new_init(budget_name: &str) -> (r: BudgeyState)
        ensures
            r.budget_names@.len() == 1,
            r.budget_names@[0]@ == budget_name@,
            r.current_focused_budget_name@ == budget_name@,
            r.wf(),
    {
        let mut budget_names: Vec<String> = Vec::new();
        budget_names.push(budget_name.to_owned());
        BudgeyState { budget_names, current_focused_budget_name: budget_name.to_owned() }
    }

    /// Appends a budget name, leaving the focus unchanged. No
    /// duplicate check is made here; `add_budget` is the validating
    /// entry.
    pub fn add_budget_name(&self, budget_name: &str) -> (r: BudgeyState)
        ensures
            r.budget_names@.len() == self.budget_names@.len() + 1,
            r.budget_names@.drop_last() == self.budget_names@,
            r.budget_names@.last()@ == budget_name@,
            r.current_focused_budget_name == self.current_focused_budget_name,
    {
        let mut budget_names = clone_strings(&self.budget_names);
        budget_names.push(budget_name.to_owned());
        proof {
            assert(budget_names@.drop_last() =~= self.budget_names@);
        }
        BudgeyState {
            budget_names,
            current_focused_budget_name: self.current_focused_budget_name.clone(),
        }
    }

    /// Points the focus at the given name, whether or not it is known.
    /// `focus_budget` is the validating entry.
    pub fn change_focused_budget_name(&self, budget_name: &str) -> (r: BudgeyState)
        ensures
            r.budget_names@ == self.budget_names@,
            r.current_focused_budget_name@ == budget_name@,
    {
        BudgeyState {
            budget_names: clone_strings(&self.budget_names),
            current_focused_budget_name: budget_name.to_owned(),
        }
    }

    /// Removes every budget name reading as the given one, leaving the
    /// focus unchanged — also when the focused name itself is removed;
    /// the caller is expected to re-focus explicitly.
    pub fn remove_budget_name(&self, budget_name: &str) -> (r: BudgeyState)
        ensures
            r.budget_names@ == self.budget_names@.filter(|s: String| s@ != budget_name@),
            r.current_focused_budget_name == self.current_focused_budget_name,
    {
        BudgeyState {
            budget_names: crate::utils::filter_out_name(&self.budget_names, budget_name),
            current_focused_budget_name: self.current_focused_budget_name.clone(),
        }
    }

    /// Each budget name in order, paired with whether it is focused.
    pub fn list_budgets(&self) -> (r: Vec<(String, bool)>)
        ensures
            r@.len() == self.budget_names@.len(),
            forall|i: int|
                0 <= i < r@.len() ==> (#[trigger] r@[i]).0@ == self.budget_names@[i]@ && (r@[i].1
                    <==> self.budget_names@[i]@ == self.current_focused_budget_name@),
    {
        let mut r: Vec<(String, bool)> = Vec::new();
        let mut i: usize = 0;
        while i < self.budget_names.len()
            invariant
                i <= self.budget_names@.len(),
                r@.len() == i,
                forall|j: int|
                    0 <= j < i ==> (#[trigger] r@[j]).0@ == self.budget_names@[j]@ && (r@[j].1
                        <==> self.budget_names@[j]@ == self.current_focused_budget_name@),
            decreases self.budget_names.len() - i,
        {
            let focused = self.budget_names[i] == self.current_focused_budget_name;
            r.push((self.budget_names[i].clone(), focused));
            i = i + 1;
        }
        r
    }
}

/// Adds a budget of the given name to the registry, leaving the focus
/// unchanged. Fails with `DuplicateName` if and only if the name is
/// already present.
pub fn add_budget(registry: &BudgeyState, name: &str) -> (r: Result<BudgeyState, BudgeyError>)
    ensures
        r is Ok <==> !contains_name(registry.budget_names@, name@),
        r matches Err(e) ==> e == BudgeyError::DuplicateName,
        r matches Ok(s) ==> {
            &&& s.budget_names@.len() == registry.budget_names@.len() + 1
            &&& s.budget_names@.drop_last() == registry.budget_names@
            &&& s.budget_names@.last()@ == name@
            &&& s.current_focused_budget_name == registry.current_focused_budget_name
            &&& registry.wf() ==> s.wf()
        },
{
    if vec_contains_name(&registry.budget_names, name) {
        return Err(BudgeyError::DuplicateName);
    }
    let added = registry.add_budget_name(name);
    proof {
        if registry.wf() {
            assert forall|i: int, j: int|
                0 <= i < j < added.budget_names@.len() implies (#[trigger] added.budget_names@[i])@
                != (#[trigger] added.budget_names@[j])@ by {
                if j < added.budget_names@.len() - 1 {
                    assert(added.budget_names@[i] == registry.budget_names@[i]);
                    assert(added.budget_names@[j] == registry.budget_names@[j]);
                } else {
                    assert(added.budget_names@[i] == registry.budget_names@[i]);
                }
            }
            let k = choose|k: int|
                0 <= k < registry.budget_names@.len() && registry.budget_names@[k]@
                    == registry.current_focused_budget_name@;
            assert(added.budget_names@[k]@ == registry.current_focused_budget_name@);
        }
    }
    Ok(added)
}

/// Focuses the named budget. Fails with `NotFound` if and only if the
/// name is unknown, in which case the registry is left as it was.
pub fn focus_budget(registry: &BudgeyState, name: &str) -> (r: Result<BudgeyState, BudgeyError>)
    ensures
        r is Ok <==> contains_name(registry.budget_names@, name@),
        r matches Err(e) ==> e == BudgeyError::NotFound,
        r matches Ok(s) ==> {
            &&& s.budget_names@ == registry.budget_names@
            &&& s.current_focused_budget_name@ == name@
            &&& registry.wf() ==> s.wf()
        },
{
    if !vec_contains_name(&registry.budget_names, name) {
        return Err(BudgeyError::NotFound);
    }
    Ok(registry.change_focused_budget_name(name))
}

} // verus!
