//! Failures that the use cases report to their callers.

use vstd::prelude::*;
use crate::domain::error::DomainError;

verus! {

/// A failure of a use case.
#[derive(Debug, Clone)]
pub enum UseCasesError {
    /// A failure of the domain, passed on unchanged.
    Domain(DomainError),
    DatabaseError,
    ExternalServiceError,
    Unauthorized,
    Forbidden,
    InternalError,
}

impl UseCasesError {
    /// The human-readable text of this failure; a domain failure keeps its own text.
    pub open spec fn message(self) -> Seq<char> {
        match self {
            UseCasesError::Domain(e) => e.message(),
            UseCasesError::DatabaseError => "Database operation failed"@,
            UseCasesError::ExternalServiceError => "External service communication failed"@,
            UseCasesError::Unauthorized =>
                "Authentication is required and failed or has not yet been provided"@,
            UseCasesError::Forbidden => "The request was valid, but the server is refusing action"@,
            UseCasesError::InternalError => "An unexpected internal server error occurred"@,
        }
    }

    /// The human-readable text of this failure.
    pub fn to_string(&self) -> (r: String)
        ensures
            r@ == self.message(),
    {
        match self {
            UseCasesError::Domain(e) => e.to_string(),
            UseCasesError::DatabaseError => String::from_str("Database operation failed"),
            UseCasesError::ExternalServiceError => String::from_str(
                "External service communication failed",
            ),
            UseCasesError::Unauthorized => String::from_str(
                "Authentication is required and failed or has not yet been provided",
            ),
            UseCasesError::Forbidden => String::from_str(
                "The request was valid, but the server is refusing action",
            ),
            UseCasesError::InternalError => String::from_str(
                "An unexpected internal server error occurred",
            ),
        }
    }
}

impl From<DomainError> for UseCasesError {
    fn from(e: DomainError) -> (r: Self) {
        UseCasesError::Domain(e)
    }
}

impl vstd::std_specs::convert::FromSpecImpl<DomainError> for UseCasesError {
    open spec fn obeys_from_spec() -> bool {
        true
    }

    open spec fn from_spec(v: DomainError) -> Self {
        UseCasesError::Domain(v)
    }
}

} // verus!
