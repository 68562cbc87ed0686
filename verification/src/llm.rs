//! The seam where a command provider will be attached.
//!
//! The daemon in scope only acknowledges connections; once real request
//! processing exists, an implementation of this trait turns a
//! natural-language prompt into a shell command.

use vstd::prelude::*;

use crate::error::BbError;

verus! {

/// Implemented by providers that generate a shell command for a prompt.
pub trait LlmProvider {
    fn generate_command(&self, prompt: &str) -> Result<String, BbError>;
}

} // verus!
