//! The ways in which an operation of the engine can fail.

use vstd::prelude::*;

verus! {

/// Why the engine refused an operation.
#[derive(Debug, Clone, Copy, PartialEq, Eq, Structural)]
pub enum PolicyError {
    /// The pattern of a rule is not a valid regular expression.
    InvalidPattern,
    /// No rule of the engine has the requested identifier.
    RuleNotFound,
}

impl PolicyError {
    /// The text that describes the error to a person.
    pub open spec fn message_text(self) -> Seq<char> {
        match self {
            PolicyError::InvalidPattern => "Invalid regex pattern in rule"@,
            PolicyError::RuleNotFound => "Rule not found"@,
        }
    }

    /// Returns the text that describes the error to a person.
    pub fn message(&self) -> (text: &'static str)
        ensures
            text@ == self.message_text(),
    {
        match self {
            PolicyError::InvalidPattern => "Invalid regex pattern in rule",
            PolicyError::RuleNotFound => "Rule not found",
        }
    }
}

} // verus!
