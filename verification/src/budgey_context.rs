//! The working context of one invocation: the startup configuration
//! together with the loaded registry snapshot.

use vstd::prelude::*;

verus! {

use crate::budgey_config::BudgeyConfig;
use crate::budgey_state::BudgeyState;
use crate::utils::{concat_paths, create_json_file_name, contains_name, vec_contains_name,
    clone_strings};

/// The configuration and the registry snapshot an invocation works on.
#[derive(Clone, Debug, PartialEq)]
pub struct BudgeyContext {
    /// Where the ledger lives on disk.
    pub budgey_config: BudgeyConfig,
    /// The registry snapshot loaded for this invocation.
    pub state: BudgeyState,
}

impl BudgeyContext {
    pub fn new(state: &BudgeyState, budgey_config: &BudgeyConfig) -> (r: BudgeyContext)
        ensures
            r.budgey_config == *budgey_config,
            r.state.budget_names@ == state.budget_names@,
            r.state.current_focused_budget_name == state.current_focused_budget_name,
    {
        BudgeyContext {
            budgey_config: budgey_config.clone(),
            state: BudgeyState {
                budget_names: clone_strings(&state.budget_names),
                current_focused_budget_name: state.current_focused_budget_name.clone(),
            },
        }
    }

    /// The directory of the currently focused budget.
    pub fn get_current_budget_path(&self) -> (r: String)
        ensures
            r@ == self.budgey_config.budgey_path@ + "/"@
                + self.state.current_focused_budget_name@,
    {
        concat_paths(
            self.budgey_config.budgey_path.as_str(),
            self.state.current_focused_budget_name.as_str(),
        )
    }

    /// The name of the currently focused budget.
    pub fn get_current_budget_name(&self) -> (r: String)
        ensures
            r == self.state.current_focused_budget_name,
    {
        self.state.current_focused_budget_name.clone()
    }

    /// The path of the currently focused budget's document.
    pub fn get_current_budget_json_path(&self) -> (r: String)
        ensures
            r@ == self.budgey_config.budgey_path@ + "/"@ + self.state.current_focused_budget_name@
                + "/"@ + self.state.current_focused_budget_name@ + ".json"@,
    {
        let budget_path = self.get_current_budget_path();
        let file_name = create_json_file_name(self.state.current_focused_budget_name.as_str());
        let r = concat_paths(budget_path.as_str(), file_name.as_str());
        proof {
            assert(r@ =~= self.budgey_config.budgey_path@ + "/"@
                + self.state.current_focused_budget_name@ + "/"@
                + self.state.current_focused_budget_name@ + ".json"@);
        }
        r
    }

    /// The same configuration over a new registry snapshot.
    pub fn update_state(&self, new_state: &BudgeyState) -> (r: BudgeyContext)
        ensures
            r.budgey_config == self.budgey_config,
            r.state.budget_names@ == new_state.budget_names@,
            r.state.current_focused_budget_name == new_state.current_focused_budget_name,
    {
        BudgeyContext::new(new_state, &self.budgey_config)
    }

    /// Whether the registry knows a budget of the given name.
    pub fn contains_budget(&self, budget_name: &str) -> (r: bool)
        ensures
            r == contains_name(self.state.budget_names@, budget_name@),
    {
        vec_contains_name(&self.state.budget_names, budget_name)
    }
}

} // verus!
