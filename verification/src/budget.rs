//! A budget: an ordered set of uniquely-named piles plus the name of
//! the currently focused pile.
//!
//! Every budget holds a pile named "main", which can never be deleted;
//! the focused pile is always one of the budget's piles. Operations
//! are pure: each takes a snapshot and returns a new snapshot or a
//! typed error.

use vstd::prelude::*;

verus! {

use crate::errors::BudgeyError;
use crate::utils::{
    contains_name, unique_names, vec_contains_name, clone_strings, filter_out_name, str_eq,
    fresh_nanoid, lemma_filter_keeps_distinct_names, lemma_filter_keeps_contains,
};

/// The identifying detail of a budget: a unique token and the
/// user-chosen name.
#[derive(Debug, PartialEq)]
pub struct BudgetDetail {
    /// The unique token this budget was created with.
    pub id: String,
    /// The user-chosen name, unique within the registry.
    pub budget_name: String,
}

impl BudgetDetail {
    pub fn new(id: &str, budget_name: &str) -> (r: BudgetDetail)
        ensures
            r.id@ == id@,
            r.budget_name@ == budget_name@,
    {
        BudgetDetail { id: id.to_owned(), budget_name: budget_name.to_owned() }
    }
}

impl Clone for BudgetDetail {
    fn clone(&self) -> (r: Self)
        ensures
            r == *self,
    {
        BudgetDetail { id: self.id.clone(), budget_name: self.budget_name.clone() }
    }
}

/// A named collection of piles with one focused pile.
#[derive(Clone, Debug, PartialEq)]
pub struct Budget {
    /// The budget's identity.
    pub budget_detail: BudgetDetail,
    /// The names of the budget's piles, in creation order.
    pub pile_names: Vec<String>,
    /// The name of the currently focused pile.
    pub current_pile_name: String,
}

impl Budget {
    /// A budget the data model admits: pile names are unique, the
    /// focused pile is one of them, and the "main" pile exists.
    pub open spec fn wf(self) -> bool {
        &&& unique_names(self.pile_names@)
        &&& contains_name(self.pile_names@, self.current_pile_name@)
        &&& contains_name(self.pile_names@, "main"@)
    }

    /// A budget assembled from its parts, exactly as given.
    pub fn new(budget_detail: BudgetDetail, pile_names: Vec<String>, current_pile_name: String) -> (r:
        Budget)
        ensures
            r.budget_detail == budget_detail,
            r.pile_names == pile_names,
            r.current_pile_name == current_pile_name,
    {
        Budget { budget_detail, pile_names, current_pile_name }
    }

    /// A fresh budget under the given name: a new unique token, exactly
    /// one pile "main", and "main" focused.
    pub fn new_init(budget_name: &str) -> (r: Budget)
        ensures
            r.budget_detail.budget_name@ == budget_name@,
            r.budget_detail.id@.len() == 21,
            r.pile_names@.len() == 1,
            r.pile_names@[0]@ == "main"@,
            r.current_pile_name@ == "main"@,
            r.wf(),
    {
        let id = fresh_nanoid();
        let detail = BudgetDetail::new(id.as_str(), budget_name);
        let mut pile_names: Vec<String> = Vec::new();
        pile_names.push("main".to_owned());
        Budget { budget_detail: detail, pile_names, current_pile_name: "main".to_owned() }
    }

    /// Focuses the named pile. Fails with `NotFound` if and only if no
    /// pile of that name exists, in which case the budget is left as
    /// it was.
    pub fn change_current_pile(&self, name: &str) -> (r: Result<Budget, BudgeyError>)
        ensures
            r is Ok <==> contains_name(self.pile_names@, name@),
            r matches Err(e) ==> e == BudgeyError::NotFound,
            r matches Ok(b) ==> {
                &&& b.budget_detail == self.budget_detail
                &&& b.pile_names@ == self.pile_names@
                &&& b.current_pile_name@ == name@
                &&& self.wf() ==> b.wf()
            },
    {
        if !vec_contains_name(&self.pile_names, name) {
            return Err(BudgeyError::NotFound);
        }
        Ok(
            Budget {
                budget_detail: self.budget_detail.clone(),
                pile_names: clone_strings(&self.pile_names),
                current_pile_name: name.to_owned(),
            },
        )
    }

    /// Appends a pile of the given name, leaving the focus unchanged.
    /// Fails with `DuplicateName` if and only if the name is already
    /// taken.
    pub fn add_pile(&self, pile_name: &str) -> (r: Result<Budget, BudgeyError>)
        ensures
            r is Ok <==> !contains_name(self.pile_names@, pile_name@),
            r matches Err(e) ==> e == BudgeyError::DuplicateName,
            r matches Ok(b) ==> {
                &&& b.budget_detail == self.budget_detail
                &&& b.pile_names@.len() == self.pile_names@.len() + 1
                &&& b.pile_names@.drop_last() == self.pile_names@
                &&& b.pile_names@.last()@ == pile_name@
                &&& b.current_pile_name == self.current_pile_name
                &&& self.wf() ==> b.wf()
            },
    {
        if vec_contains_name(&self.pile_names, pile_name) {
            return Err(BudgeyError::DuplicateName);
        }
        let mut pile_names = clone_strings(&self.pile_names);
        pile_names.push(pile_name.to_owned());
        proof {
            assert(pile_names@.drop_last() =~= self.pile_names@);
            if self.wf() {
                assert forall|i: int, j: int|
                    0 <= i < j < pile_names@.len() implies (#[trigger] pile_names@[i])@ != (
                #[trigger] pile_names@[j])@ by {
                    if j < pile_names@.len() - 1 {
                        assert(pile_names@[i] == self.pile_names@[i]);
                        assert(pile_names@[j] == self.pile_names@[j]);
                    } else {
                        assert(pile_names@[i] == self.pile_names@[i]);
                    }
                }
                let k = choose|k: int|
                    0 <= k < self.pile_names@.len() && self.pile_names@[k]@
                        == self.current_pile_name@;
                assert(pile_names@[k]@ == self.current_pile_name@);
                let m = choose|m: int|
                    0 <= m < self.pile_names@.len() && self.pile_names@[m]@ == "main"@;
                assert(pile_names@[m]@ == "main"@);
            }
        }
        Ok(
            Budget {
                budget_detail: self.budget_detail.clone(),
                pile_names,
                current_pile_name: self.current_pile_name.clone(),
            },
        )
    }

    /// Deletes the named pile. Fails with `InvariantViolation` if the
    /// name is "main" — the main pile of a budget can never be deleted
    /// — and with `NotFound` if no pile of that name exists. On
    /// success every pile of that name is removed, and if it was the
    /// focused pile the focus returns to "main".
    pub fn delete_pile(&self, pile_name: &str) -> (r: Result<Budget, BudgeyError>)
        ensures
            pile_name@ == "main"@ ==> (r matches Err(e) && e == BudgeyError::InvariantViolation),
            r is Ok <==> (pile_name@ != "main"@ && contains_name(self.pile_names@, pile_name@)),
            r matches Err(e) ==> e == (if pile_name@ == "main"@ {
                BudgeyError::InvariantViolation
            } else {
                BudgeyError::NotFound
            }),
            r matches Ok(b) ==> {
                &&& b.budget_detail == self.budget_detail
                &&& b.pile_names@ == self.pile_names@.filter(|s: String| s@ != pile_name@)
                &&& b.current_pile_name@ == (if self.current_pile_name@ == pile_name@ {
                    "main"@
                } else {
                    self.current_pile_name@
                })
                &&& self.current_pile_name@ != pile_name@ ==> b.current_pile_name
                    == self.current_pile_name
                &&& self.wf() ==> b.wf()
            },
    {
        if str_eq(pile_name, "main") {
            return Err(BudgeyError::InvariantViolation);
        }
        if !vec_contains_name(&self.pile_names, pile_name) {
            return Err(BudgeyError::NotFound);
        }
        let pile_names = filter_out_name(&self.pile_names, pile_name);
        let current_pile_name: String = if str_eq(self.current_pile_name.as_str(), pile_name) {
            "main".to_owned()
        } else {
            self.current_pile_name.clone()
        };
        proof {
            let pred = |s: String| s@ != pile_name@;
            if self.wf() {
                lemma_filter_keeps_distinct_names(self.pile_names@, pred);
                lemma_filter_keeps_contains(self.pile_names@, pred, "main"@);
                if self.current_pile_name@ != pile_name@ {
                    lemma_filter_keeps_contains(self.pile_names@, pred, self.current_pile_name@);
                }
            }
        }
        Ok(
            Budget {
                budget_detail: self.budget_detail.clone(),
                pile_names,
                current_pile_name,
            },
        )
    }

    /// Each pile name in order, paired with whether it is the focused
    /// pile. A pure projection with no failure mode.
    pub fn list_piles(&self) -> (r: Vec<(String, bool)>)
        ensures
            r@.len() == self.pile_names@.len(),
            forall|i: int|
                0 <= i < r@.len() ==> (#[trigger] r@[i]).0@ == self.pile_names@[i]@ && (r@[i].1
                    <==> self.pile_names@[i]@ == self.current_pile_name@),
    {
        let mut r: Vec<(String, bool)> = Vec::new();
        let mut i: usize = 0;
        while i < self.pile_names.len()
            invariant
                i <= self.pile_names@.len(),
                r@.len() == i,
                forall|j: int|
                    0 <= j < i ==> (#[trigger] r@[j]).0@ == self.pile_names@[j]@ && (r@[j].1
                        <==> self.pile_names@[j]@ == self.current_pile_name@),
            decreases self.pile_names.len() - i,
        {
            let focused = self.pile_names[i] == self.current_pile_name;
            r.push((self.pile_names[i].clone(), focused));
            i = i + 1;
        }
        r
    }
}

} // verus!
