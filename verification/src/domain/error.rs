//! Failures that the marketplace side of the service reports.

use vstd::prelude::*;

verus! {

/// A failure in the domain: a refused input, a broken rule, or a step of the
/// browser automation that could not be carried out.
#[derive(Debug, Clone)]
pub enum DomainError {
    InvalidInput,
    MissingField,
    RuleViolation,
    NotFound,
    AlreadyExists,
    LimitReached,
    /// The automation stopped; the text says at which step and why.
    AutomationError(String),
}

impl DomainError {
    /// The human-readable text of this failure.
    pub open spec fn message(self) -> Seq<char> {
        match self {
            DomainError::InvalidInput => "The provided input data is invalid"@,
            DomainError::MissingField => "A required field is missing"@,
            DomainError::RuleViolation => "A business rule was violated"@,
            DomainError::NotFound => "The requested resource was not found"@,
            DomainError::AlreadyExists => "The resource already exists"@,
            DomainError::LimitReached => "The maximum allowed limit has been reached"@,
            DomainError::AutomationError(step) => "Automation failed at step: "@ + step@,
        }
    }

    /// The human-readable text of this failure.
    pub fn to_string(&self) -> (r: String)
        ensures
            r@ == self.message(),
    {
        match self {
            DomainError::InvalidInput => String::from_str("The provided input data is invalid"),
            DomainError::MissingField => String::from_str("A required field is missing"),
            DomainError::RuleViolation => String::from_str("A business rule was violated"),
            DomainError::NotFound => String::from_str("The requested resource was not found"),
            DomainError::AlreadyExists => String::from_str("The resource already exists"),
            DomainError::LimitReached => String::from_str(
                "The maximum allowed limit has been reached",
            ),
            DomainError::AutomationError(step) => {
                let mut s = String::from_str("Automation failed at step: ");
                s.append(step.as_str());
                s
            },
        }
    }

    /// An automation failure carrying the given text.
    pub open spec fn is_automation_with(self, text: Seq<char>) -> bool {
        &&& self is AutomationError
        &&& self->AutomationError_0@ == text
    }
}

} // verus!
