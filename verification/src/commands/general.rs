//! What the bot says when a command fails.

use vstd::prelude::*;
use crate::localization::{is_message, unknown_command, unknown_error, LocalizedMessage};

verus! {

/// How the handling of a command came to fail.
#[derive(Debug, Clone, Copy, PartialEq, Eq, Structural)]
pub enum Failure {
    /// A command ended in an error.
    Command,
    /// What was typed is no command of the bot.
    UnknownCommand,
    /// Anything else, which the framework reports by itself.
    Other,
}

/// Whether `r` is the notice that a failure of the kind `failure` calls
/// for.
pub open spec fn is_failure_notice(r: Option<LocalizedMessage>, failure: Failure) -> bool {
    match failure {
        Failure::Command => r matches Some(message) && is_message(
            message,
            "unknown-error"@,
            Seq::empty(),
        ),
        Failure::UnknownCommand => r matches Some(message) && is_message(
            message,
            "unknown-command"@,
            Seq::empty(),
        ),
        Failure::Other => r is None,
    }
}

/// The notice that a failure calls for, so that no command ends without a
/// word to the user: a general apology where a command ended in an error,
/// a hint where there is no such command, and nothing where the framework
/// speaks for itself.
pub fn failure_notice(failure: Failure) -> (r: Option<LocalizedMessage>)
    ensures
        is_failure_notice(r, failure),
{
    match failure {
        Failure::Command => Some(unknown_error()),
        Failure::UnknownCommand => Some(unknown_command()),
        Failure::Other => None,
    }
}

} // verus!
