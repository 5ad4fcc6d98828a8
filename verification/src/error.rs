//! The error that reaches the top of a command.

use vstd::prelude::*;
use crate::sources::common::ApiError;
use crate::utils::parsing::ParseError;

verus! {

/// Everything that can end a command before its answer is sent.
#[derive(Debug)]
pub enum Error {
    /// The chat framework failed, for instance to deliver a prompt. Holds
    /// the framework's own description of what went wrong.
    FrameworkError(String),
    /// A provider could not be asked or did not answer as expected.
    ApiError(ApiError),
    /// Something that the flow of a command does not foresee.
    Unexpected { reason: String, subject: Option<String> },
    /// What the user typed cannot be used; the user is told so.
    Handled { inner: ParseError },
}

} // verus!
