//! Where the ledger lives on disk: the root path and the name of the
//! registry document. Handed in at startup; the core itself never
//! touches the filesystem.

use vstd::prelude::*;

verus! {

use crate::utils::concat_paths;

/// The root path of the ledger and the file name of the registry
/// document under it.
#[derive(Debug, PartialEq, Eq)]
pub struct BudgeyConfig {
    /// The path of the ledger's root directory.
    pub budgey_path: String,
    /// The file name of the registry document.
    pub state_json_name: String,
}

impl BudgeyConfig {
    pub fn new(budgey_path: &str, state_json_name: &str) -> (r: BudgeyConfig)
        ensures
            r.budgey_path@ == budgey_path@,
            r.state_json_name@ == state_json_name@,
    {
        BudgeyConfig {
            budgey_path: budgey_path.to_owned(),
            state_json_name: state_json_name.to_owned(),
        }
    }

    /// The path of the named budget's directory under the root.
    pub fn get_budget_path(&self, budget_name: &str) -> (r: String)
        ensures
            r@ == self.budgey_path@ + "/"@ + budget_name@,
    {
        concat_paths(self.budgey_path.as_str(), budget_name)
    }

    /// The path of the registry document.
    pub fn get_state_path(&self) -> (r: String)
        ensures
            r@ == self.budgey_path@ + "/"@ + self.state_json_name@,
    {
        concat_paths(self.budgey_path.as_str(), self.state_json_name.as_str())
    }
}

impl Clone for BudgeyConfig {
    fn clone(&self) -> (r: Self)
        ensures
            r == *self,
    {
        BudgeyConfig {
            budgey_path: self.budgey_path.clone(),
            state_json_name: self.state_json_name.clone(),
        }
    }
}

} // verus!
