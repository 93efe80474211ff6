//! The error taxonomy shared by the core operations.

use vstd::prelude::*;

verus! {

/// Every core operation either succeeds with a new snapshot or fails
/// with exactly one of these kinds. The core never recovers from them.
#[derive(Clone, Copy, Debug, PartialEq, Eq, Structural)]
pub enum BudgeyError {
    /// A referenced budget, pile or state document is absent.
    NotFound,
    /// A budget or pile name collided on creation.
    DuplicateName,
    /// An operation would break a data-model invariant, such as
    /// deleting the "main" pile or committing with nothing staged.
    InvariantViolation,
    /// The storage collaborator failed to read or write.
    IOFailure,
    /// A persisted document was malformed or schema-incompatible.
    SerializationFailure,
}

impl BudgeyError {
    /// The message shown to the user for this error kind.
    pub open spec fn spec_user_message(self) -> Seq<char> {
        match self {
            BudgeyError::NotFound => {
                "the referenced budget, pile or state document was not found"@
            },
            BudgeyError::DuplicateName => "that name is already taken"@,
            BudgeyError::InvariantViolation => "the operation would break a budget invariant"@,
            BudgeyError::IOFailure => "something went wrong reading or writing storage"@,
            BudgeyError::SerializationFailure => "a stored document could not be understood"@,
        }
    }

    /// A short user-facing description of the error kind.
    pub fn get_user_message(&self) -> (r: &'static str)
        ensures
            r@ == self.spec_user_message(),
    {
        match self {
            BudgeyError::NotFound => "the referenced budget, pile or state document was not found",
            BudgeyError::DuplicateName => "that name is already taken",
            BudgeyError::InvariantViolation => "the operation would break a budget invariant",
            BudgeyError::IOFailure => "something went wrong reading or writing storage",
            BudgeyError::SerializationFailure => "a stored document could not be understood",
        }
    }
}

} // verus!
