//! Confidence-gated synthesis of refactoring proposals.
//!
//! A structural model of a source unit (its sub-routines, its dependencies
//! and the responsibility clusters found in it) is turned into a proposal of
//! new modules: the clusters that are confident enough are selected, their
//! sub-routines are resolved against the model, a prompt asks a
//! text-generation service for each module's code, and the impact of the
//! whole is estimated. The library decides and computes; requests, waits
//! and files are its caller's.
pub mod domain;
pub mod error;
pub mod gateway;
pub mod parser;
pub mod proposer;
pub mod report;
pub mod text;
pub mod validator;
pub mod workflow;
pub mod writer;

pub use error::Error;
