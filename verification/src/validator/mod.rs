//! Validation of the dependencies of a refactoring proposal.
use crate::domain::models::{RefactoringProposal, ValidationResult};
use crate::domain::traits::DependencyValidator;
use crate::error::{Error, ErrorView};
use crate::proposer::NOT_IMPLEMENTED;
use vstd::prelude::*;

verus! {

/// The validator that stands in where none is configured: it declines every
/// request.
#[derive(Debug, Clone, Copy, PartialEq, Eq, Structural)]
pub struct DefaultDependencyValidator;

impl DefaultDependencyValidator {
    pub fn new() -> (r: Self)
        ensures
            r == DefaultDependencyValidator,
    {
        DefaultDependencyValidator
    }
}

impl DependencyValidator for DefaultDependencyValidator {
    /// Declines: no proposal is validated.
    fn validate_dependencies(&self, proposal: &RefactoringProposal) -> (r: Result<
        ValidationResult,
        Error,
    >)
        ensures
            r matches Err(e) && e@ == ErrorView::ValidationError(NOT_IMPLEMENTED@),
    {
        Err(Error::ValidationError(String::from_str(NOT_IMPLEMENTED)))
    }
}

} // verus!
