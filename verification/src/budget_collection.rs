//! A bare list of budget names: the minimal shape of the
//! registry document, holding no focus.

use vstd::prelude::*;

verus! {

/// The names of all known budgets, and nothing else.
#[derive(Clone, Debug, PartialEq)]
pub struct BudgetCollection {
    pub budget_names: Vec<String>,
}

impl BudgetCollection {
    pub fn new(budget_names: Vec<String>) -> (r: BudgetCollection)
        ensures
            r.budget_names == budget_names,
    {
        BudgetCollection { budget_names }
    }

    /// The collection with one more name appended.
    pub fn add_name(self, name: String) -> (r: BudgetCollection)
        ensures
            r.budget_names@ == self.budget_names@.push(name),
    {
        let mut budget_names = self.budget_names;
        budget_names.push(name);
        BudgetCollection { budget_names }
    }

    /// The collection a fresh installation starts with: just "main".
    pub fn new_init() -> (r: BudgetCollection)
        ensures
            r.budget_names@.len() == 1,
            r.budget_names@[0]@ == "main"@,
    {
        let mut budget_names: Vec<String> = Vec::new();
        budget_names.push("main".to_owned());
        BudgetCollection { budget_names }
    }
}

} // verus!
