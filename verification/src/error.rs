//! The error of a transfer.

use vstd::prelude::*;
use vstd::std_specs::convert::FromSpecImpl;

verus! {

/// Why a transfer, or one file of it, failed.
#[derive(Debug, PartialEq, Eq)]
pub enum ScpError {
    /// A local operation failed: a directory could not be made, a file could
    /// not be written, the configuration could not be read. Holds the cause
    /// in words.
    Io(String),
    /// The remote side failed: connecting, the handshake, authentication, a
    /// command or a retrieval. Holds the message of the transport.
    Ssh(String),
    /// Anything else, in words.
    Other(String),
}

/// An [`ScpError`] with the text of its message.
pub enum ErrorView {
    Io(Seq<char>),
    Ssh(Seq<char>),
    Other(Seq<char>),
}

impl ErrorView {
    /// The line that reports the error.
    pub open spec fn message(self) -> Seq<char> {
        match self {
            ErrorView::Io(cause) => "IO error: "@ + cause,
            ErrorView::Ssh(cause) => "SSH error: "@ + cause,
            ErrorView::Other(cause) => "Error: "@ + cause,
        }
    }
}

impl View for ScpError {
    type V = ErrorView;

    open spec fn view(&self) -> ErrorView {
        match self {
            ScpError::Io(cause) => ErrorView::Io(cause@),
            ScpError::Ssh(cause) => ErrorView::Ssh(cause@),
            ScpError::Other(cause) => ErrorView::Other(cause@),
        }
    }
}

impl ScpError {
    /// The line that reports the error: what kind of failure it was, then its
    /// cause.
    pub fn message(&self) -> (text: String)
        ensures
            text@ == self@.message(),
    {
        match self {
            ScpError::Io(cause) => "IO error: ".to_owned().concat(cause.as_str()),
            ScpError::Ssh(cause) => "SSH error: ".to_owned().concat(cause.as_str()),
            ScpError::Other(cause) => "Error: ".to_owned().concat(cause.as_str()),
        }
    }
}

impl Clone for ScpError {
    fn clone(&self) -> (copy: Self)
        ensures
            copy == *self,
    {
        match self {
            ScpError::Io(cause) => ScpError::Io(cause.clone()),
            ScpError::Ssh(cause) => ScpError::Ssh(cause.clone()),
            ScpError::Other(cause) => ScpError::Other(cause.clone()),
        }
    }
}

impl From<&str> for ScpError {
    /// An error of the kind [`ScpError::Other`] with `cause` as its text.
    fn from(cause: &str) -> (error: ScpError)
        ensures
            error@ == ErrorView::Other(cause@),
    {
        ScpError::Other(cause.to_owned())
    }
}

/// A `String` cannot be made inside a specification, so what `from` returns is
/// stated by its own `ensures` and not through `from_spec`.
impl FromSpecImpl<&str> for ScpError {
    open spec fn obeys_from_spec() -> bool {
        false
    }

    open spec fn from_spec(cause: &str) -> ScpError {
        arbitrary()
    }
}

} // verus!
