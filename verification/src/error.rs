//! What can go wrong when a lock is asked for.

use vstd::prelude::*;
use vstd::std_specs::convert::FromSpecImpl;

verus! {

/// The categories of failure. More may be added over time.
#[derive(Clone, Copy, Debug, PartialEq, Eq, Structural)]
pub enum ErrorKind {
    /// The lock is already held.
    Locked,
    /// Any failure that has no category of its own.
    Other,
}

/// A failure, with its category.
#[derive(Debug)]
pub struct Error {
    kind: ErrorKind,
}

impl ErrorKind {
    /// The text that describes this category.
    pub open spec fn spec_message(&self) -> Seq<char> {
        match self {
            ErrorKind::Locked => "The fd is locked"@,
            ErrorKind::Other => "Generic error."@,
        }
    }

    /// The text that describes this category.
    pub fn to_string(&self) -> (text: String)
        ensures
            text@ == self.spec_message(),
    {
        match self {
            ErrorKind::Locked => "The fd is locked".to_owned(),
            ErrorKind::Other => "Generic error.".to_owned(),
        }
    }
}

impl Error {
    /// The category of this failure.
    pub closed spec fn view(&self) -> ErrorKind {
        self.kind
    }

    /// The category of this failure.
    pub fn kind(&self) -> (kind: &ErrorKind)
        ensures
            *kind == self@,
    {
        &self.kind
    }

    /// The text that describes this failure: that of its category.
    pub fn to_string(&self) -> (text: String)
        ensures
            text@ == self@.spec_message(),
    {
        self.kind.to_string()
    }

    /// A failure is known by its category alone.
    pub proof fn lemma_determined_by_view(self, other: Self)
        requires
            self@ == other@,
        ensures
            self == other,
    {
    }
}

impl From<ErrorKind> for Error {
    fn from(kind: ErrorKind) -> (error: Error)
        ensures
            error@ == kind,
    {
        Error { kind }
    }
}

impl FromSpecImpl<ErrorKind> for Error {
    open spec fn obeys_from_spec() -> bool {
        true
    }

    closed spec fn from_spec(kind: ErrorKind) -> Error {
        Error { kind }
    }
}

/// The two categories are told apart by their text.
pub proof fn lemma_messages_differ()
    ensures
        ErrorKind::Locked.spec_message() != ErrorKind::Other.spec_message(),
{
    reveal_strlit("The fd is locked");
    reveal_strlit("Generic error.");
    assert(ErrorKind::Locked.spec_message().len() == 16);
    assert(ErrorKind::Other.spec_message().len() == 14);
}

} // verus!
