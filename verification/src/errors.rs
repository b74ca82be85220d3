//! The fatal and non-fatal failure kinds of one invocation.

use vstd::prelude::*;

verus! {

/// A fatal failure of the issue-assembly pipeline. Every variant aborts
/// the whole invocation; nothing is retried and nothing is rolled back.
#[derive(Debug)]
pub enum IssueError {
    /// The event's reference time could not be interpreted as a timestamp.
    ParseError,
    /// The ranked link list was empty, so no primary link exists.
    EmptyLinkList,
    /// The template collaborator failed; its message is carried unchanged.
    RenderError(String),
    /// The email-service collaborator failed to create or send a message.
    EmailServiceError(String),
}

impl IssueError {
    /// A short description of the failure.
    pub fn message(&self) -> (r: String)
        ensures
            *self is ParseError ==> r@ == "failed to parse the reference time"@,
            *self is EmptyLinkList ==> r@ == "no primary link available"@,
            *self matches IssueError::RenderError(m) ==> r@ == "failed to render the newsletter template: "@
                + m@,
            *self matches IssueError::EmailServiceError(m) ==> r@ == "email service call failed: "@ + m@,
    {
        match self {
            IssueError::ParseError => String::from_str("failed to parse the reference time"),
            IssueError::EmptyLinkList => String::from_str("no primary link available"),
            IssueError::RenderError(m) => {
                let mut s = String::from_str("failed to render the newsletter template: ");
                s.append(m.as_str());
                s
            },
            IssueError::EmailServiceError(m) => {
                let mut s = String::from_str("email service call failed: ");
                s.append(m.as_str());
                s
            },
        }
    }
}

} // verus!
