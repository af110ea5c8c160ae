//! From a structural model and its responsibility clusters to a refactoring
//! proposal.
pub mod duplication;
pub mod filter;
pub mod impact;
pub mod index;
pub mod prompt;
pub mod resolve;
pub mod synthesis;

use crate::domain::models::{PerlModule, RefactoringProposal};
use crate::error::{Error, ErrorView};
use vstd::prelude::*;

verus! {

pub const NOT_IMPLEMENTED: &'static str = "Not implemented";

/// The proposer that stands in where no text-generation service is
/// configured: it declines every request.
#[derive(Debug, Clone, Copy, PartialEq, Eq, Structural)]
pub struct DefaultRefactoringProposer;

impl DefaultRefactoringProposer {
    pub fn new() -> (r: Self)
        ensures
            r == DefaultRefactoringProposer,
    {
        DefaultRefactoringProposer
    }

    /// Declines: no proposal is generated for any module.
    pub fn generate_proposal(&self, module: &PerlModule) -> (r: Result<RefactoringProposal, Error>)
        ensures
            r matches Err(e) && e@ == ErrorView::ValidationError(NOT_IMPLEMENTED@),
    {
        Err(Error::ValidationError(String::from_str(NOT_IMPLEMENTED)))
    }
}

} // verus!
