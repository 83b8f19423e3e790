//! Refusals of the invitation endpoints.

use vstd::prelude::*;
use vstd::string::*;

verus! {

/// Why an invitation request was refused.
#[derive(PartialEq, Eq, Structural, Clone, Copy, Debug)]
pub enum InvitationError {
    /// No invitation has the given code or id (update and delete).
    InvitationNotFound,
    /// No invitation has the given code (info and consume).
    InvitationCodeNotFound,
    /// The role id of an update is not a role number.
    InvalidRoleId,
}

/// The message that a refusal is answered with.
pub open spec fn error_message(error: InvitationError) -> Seq<char> {
    match error {
        InvitationError::InvitationNotFound => "Invitation not found"@,
        InvitationError::InvitationCodeNotFound => "Invitation code not found"@,
        InvitationError::InvalidRoleId => "Invalid role id"@,
    }
}

impl InvitationError {
    /// The message that this refusal is answered with.
    pub fn message(&self) -> (text: String)
        ensures
            text@ == error_message(*self),
    {
        match self {
            InvitationError::InvitationNotFound => String::from_str("Invitation not found"),
            InvitationError::InvitationCodeNotFound => String::from_str(
                "Invitation code not found",
            ),
            InvitationError::InvalidRoleId => String::from_str("Invalid role id"),
        }
    }
}

} // verus!
