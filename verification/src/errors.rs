use vstd::prelude::*;

verus! {

/// The class of a configuration failure.
///
/// The builder's state machine is enforced at compile time: the finalizing
/// call only exists on the fully supplied builder type, so there is no
/// missing-required-field failure class at run time.  The only way
/// configuration can fail is that a piece of endpoint text does not parse as
/// an absolute URL.
#[derive(Clone, Copy, PartialEq, Eq, Structural, Debug)]
pub enum ErrorKind {
    /// The supplied endpoint text, or the endpoint derived from a connection
    /// string, is not a well-formed absolute URL.
    InvalidEndpoint,
}

/// The mathematical content of an [`Error`].
pub struct ErrorView {
    pub kind: ErrorKind,
    pub input: Seq<char>,
}

/// A configuration failure, carrying the offending input text so that the
/// caller can correct it.
#[derive(Debug)]
pub struct Error {
    kind: ErrorKind,
    input: String,
}

impl View for Error {
    type V = ErrorView;

    closed spec fn view(&self) -> ErrorView {
        ErrorView { kind: self.kind, input: self.input@ }
    }
}

impl Error {
    /// An [`ErrorKind::InvalidEndpoint`] failure recording the rejected text.
    pub fn invalid_endpoint(input: String) -> (r: Error)
        ensures
            r@.kind == ErrorKind::InvalidEndpoint,
            r@.input == input@,
    {
        Error { kind: ErrorKind::InvalidEndpoint, input }
    }

    /// The class of this failure.
    pub fn kind(&self) -> (r: ErrorKind)
        ensures
            r == self@.kind,
    {
        self.kind
    }

    /// The input text that was rejected.
    pub fn input(&self) -> (r: &String)
        ensures
            r@ == self@.input,
    {
        &self.input
    }

    /// A human-readable description of this failure.
    pub fn message(&self) -> (r: String)
        ensures
            r@ == "invalid endpoint: "@ + self@.input,
    {
        let prefix: String = String::from_str("invalid endpoint: ");
        prefix.concat(self.input.as_str())
    }
}

} // verus!
