use vstd::prelude::*;
use vstd::string::StringExecFns;
use crate::ident::{hyphenated_text, identifier_text};

verus! {

/// Why an action was refused. The state is then left as it was.
#[derive(Clone, Copy, Debug, PartialEq, Eq, Structural)]
pub enum DispatchError {
    /// No command is queued under the identifier.
    NotQueued(u128),
    /// A command is queued under the identifier already.
    AlreadyQueued(u128),
    /// The command was taken up before: it has a status.
    AlreadyStarted(u128),
    /// The command is queued, but no worker runs it.
    NotRunning(u128),
}

impl DispatchError {
    /// The identifier of the command that the refused action named.
    pub open spec fn spec_identifier(&self) -> u128 {
        match *self {
            DispatchError::NotQueued(i) => i,
            DispatchError::AlreadyQueued(i) => i,
            DispatchError::AlreadyStarted(i) => i,
            DispatchError::NotRunning(i) => i,
        }
    }

    /// The identifier of the command that the refused action named.
    #[verifier::when_used_as_spec(spec_identifier)]
    pub fn identifier(&self) -> (id: u128)
        ensures
            id == self.spec_identifier(),
    {
        match *self {
            DispatchError::NotQueued(i) => i,
            DispatchError::AlreadyQueued(i) => i,
            DispatchError::AlreadyStarted(i) => i,
            DispatchError::NotRunning(i) => i,
        }
    }

    /// What is wrong, in words, without the identifier.
    pub open spec fn reason(self) -> Seq<char> {
        match self {
            DispatchError::NotQueued(_) => "no command is queued under "@,
            DispatchError::AlreadyQueued(_) => "a command is already queued under "@,
            DispatchError::AlreadyStarted(_) => "the command was taken up before: "@,
            DispatchError::NotRunning(_) => "no worker runs the command "@,
        }
    }

    /// The message for this error, given the text of its identifier.
    pub fn message_with(&self, id_text: &str) -> (r: String)
        ensures
            r@ == self.reason() + id_text@,
    {
        let mut out = match *self {
            DispatchError::NotQueued(_) => "no command is queued under ".to_owned(),
            DispatchError::AlreadyQueued(_) => "a command is already queued under ".to_owned(),
            DispatchError::AlreadyStarted(_) => "the command was taken up before: ".to_owned(),
            DispatchError::NotRunning(_) => "no worker runs the command ".to_owned(),
        };
        out.append(id_text);
        out
    }

    /// The message for this error: what is wrong, and the identifier in its
    /// usual hyphenated form.
    pub fn message(&self) -> (r: String)
        ensures
            r@ == self.reason() + hyphenated_text(self.identifier()),
    {
        let text = identifier_text(self.identifier());
        self.message_with(text.as_str())
    }
}

} // verus!
