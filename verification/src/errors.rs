//! Classification of per-operation failures. An operation can fail while
//! the request is being sent, because the endpoint answered with an error
//! status, or while the response body is being drained; each failure is
//! scoped to its operation and never aborts the run.

use vstd::prelude::*;
use vstd::string::StringExecFns;

verus! {

/// Why one operation failed. Each variant carries the transport layer's
/// own message as a plain string, used only for the verbose rendering.
pub enum OpError {
    /// The request could not be sent (connection failure, timeout).
    Transport { detail: String },
    /// The endpoint answered with an error status code.
    HttpStatus { code: u16, detail: String },
    /// The response body could not be read to completion.
    BodyRead { detail: String },
}

impl OpError {
    /// The terse description: the classification alone, independent of
    /// the transport layer's message.
    pub open spec fn terse_spec(&self) -> Seq<char> {
        match self {
            OpError::Transport { .. } => "Error sending HTTP request"@,
            OpError::HttpStatus { .. } => "Received error HTTP response"@,
            OpError::BodyRead { .. } => "Unable to receive HTTP response body"@,
        }
    }

    /// The transport layer's message carried by the failure.
    pub open spec fn detail_spec(&self) -> Seq<char> {
        match self {
            OpError::Transport { detail } => detail@,
            OpError::HttpStatus { detail, .. } => detail@,
            OpError::BodyRead { detail } => detail@,
        }
    }

    /// The verbose description: the classification, then the carried
    /// message.
    pub open spec fn verbose_spec(&self) -> Seq<char> {
        self.terse_spec() + ": "@ + self.detail_spec()
    }

    /// Two failures fall under the same classification when they are the
    /// same variant, whatever messages they carry.
    pub open spec fn same_class(&self, other: &OpError) -> bool {
        match (self, other) {
            (OpError::Transport { .. }, OpError::Transport { .. }) => true,
            (OpError::HttpStatus { .. }, OpError::HttpStatus { .. }) => true,
            (OpError::BodyRead { .. }, OpError::BodyRead { .. }) => true,
            _ => false,
        }
    }

    /// The terse, human-readable description of the failure.
    pub fn describe(&self) -> (r: String)
        ensures
            r@ == self.terse_spec(),
    {
        match self {
            OpError::Transport { .. } => String::from_str("Error sending HTTP request"),
            OpError::HttpStatus { .. } => String::from_str("Received error HTTP response"),
            OpError::BodyRead { .. } => String::from_str("Unable to receive HTTP response body"),
        }
    }

    /// The verbose description of the failure: its classification
    /// followed by the transport layer's message.
    pub fn describe_verbose(&self) -> (r: String)
        ensures
            r@ == self.verbose_spec(),
    {
        let mut r = self.describe();
        r.append(": ");
        match self {
            OpError::Transport { detail } => r.append(detail.as_str()),
            OpError::HttpStatus { detail, .. } => r.append(detail.as_str()),
            OpError::BodyRead { detail } => r.append(detail.as_str()),
        }
        r
    }
}

/// Law: failure classification is idempotent. Failures of the same
/// classification always yield the same terse description, however they
/// were produced.
pub proof fn lemma_same_class_same_description(a: &OpError, b: &OpError)
    requires
        a.same_class(b),
    ensures
        a.terse_spec() == b.terse_spec(),
{
}

/// Law: the verbose rendering expands the terse one. It begins with the
/// terse description of the same classification, so the rendering toggle
/// changes how much of the failure is shown, never what it is.
pub proof fn lemma_verbose_extends_terse(e: &OpError)
    ensures
        e.verbose_spec().len() >= e.terse_spec().len(),
        e.verbose_spec().subrange(0, e.terse_spec().len() as int) == e.terse_spec(),
{
    assert(e.verbose_spec().subrange(0, e.terse_spec().len() as int) =~= e.terse_spec());
}

} // verus!
