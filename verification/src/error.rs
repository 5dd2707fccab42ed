//! The errors of the crate.

use vstd::prelude::*;
use vstd::string::*;

verus! {

/// What kind of failure a socket call reported, as far as the forwarder
/// tells failures apart: a bounded read that ran out of time, under either of
/// the two names the operating systems give it, or anything else.
#[derive(Clone, Copy, Debug, PartialEq, Eq, Structural)]
pub enum IoKind {
    WouldBlock,
    TimedOut,
    Other,
}

/// A failed socket call: its kind and the text of the error.
#[derive(Debug)]
pub struct IoFailure {
    pub kind: IoKind,
    pub message: String,
}

impl IoFailure {
    /// Whether the failure is a bounded read that ended without a datagram.
    pub open spec fn spec_is_timeout(&self) -> bool {
        self.kind == IoKind::WouldBlock || self.kind == IoKind::TimedOut
    }

    /// Whether the failure is a bounded read that ended without a datagram.
    #[verifier::when_used_as_spec(spec_is_timeout)]
    pub fn is_timeout(&self) -> (timeout: bool)
        ensures
            timeout == self.spec_is_timeout(),
    {
        self.kind == IoKind::WouldBlock || self.kind == IoKind::TimedOut
    }
}

/// Crate error enum.
#[derive(Debug)]
pub enum Error {
    /// An error described by an owned text.
    Generic(String),
    /// An error described by a fixed text.
    Static(&'static str),
    /// A failed socket call.
    IO(IoFailure),
}

/// Alias Result to be the crate Result.
pub type Result<T, E = Error> = core::result::Result<T, E>;

impl Error {
    /// The text that describes the error.
    pub open spec fn text(&self) -> Seq<char> {
        match self {
            Error::Generic(text) => "Generic error: "@ + text@,
            Error::Static(text) => "Static error: "@ + text@,
            Error::IO(failure) => failure.message@,
        }
    }

    /// The text that describes the error: the text it carries behind the name
    /// of its kind, or, for a failed socket call, the text of that failure
    /// as it is.
    pub fn message(&self) -> (message: String)
        ensures
            message@ == self.text(),
    {
        match self {
            Error::Generic(text) => String::from_str("Generic error: ").concat(text.as_str()),
            Error::Static(text) => String::from_str("Static error: ").concat(text),
            Error::IO(failure) => failure.message.clone(),
        }
    }
}

impl From<IoFailure> for Error {
    fn from(failure: IoFailure) -> (error: Error) {
        Error::IO(failure)
    }
}

impl vstd::std_specs::convert::FromSpecImpl<IoFailure> for Error {
    open spec fn obeys_from_spec() -> bool {
        true
    }

    open spec fn from_spec(failure: IoFailure) -> Error {
        Error::IO(failure)
    }
}

} // verus!
