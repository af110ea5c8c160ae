//! The capabilities that the pipeline is assembled from.
use crate::domain::models::{RefactoringProposal, ValidationResult};
use crate::error::Error;
use vstd::prelude::*;

verus! {

/// Checks the dependencies of a refactoring proposal.
pub trait DependencyValidator: Send + Sync {
    /// Validates the dependencies in `proposal`.
    fn validate_dependencies(&self, proposal: &RefactoringProposal) -> Result<
        ValidationResult,
        Error,
    >;
}

} // verus!
