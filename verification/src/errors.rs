use vstd::prelude::*;

verus! {

/// The foreign boundary reported a failure (connection lost, host rejected
/// the call). Not locally recoverable; surfaced to the caller. The host's
/// own diagnostic is carried through as an opaque message.
#[derive(Debug, Clone, PartialEq)]
pub struct TransportError {
    pub message: String,
}

/// A typed request could not be converted to the wire shape.
#[derive(Debug, Clone, PartialEq)]
pub struct EncodeError {
    pub field: String,
}

/// A wire response or event payload did not match the expected typed shape
/// (missing, extra or mistyped field). `field` names the wire field that
/// was found wanting.
#[derive(Debug, Clone, PartialEq)]
pub struct DecodeError {
    pub field: String,
}

/// An operation was attempted on a subscription handle that has already
/// been released or torn down.
#[derive(Debug, Clone, PartialEq, Eq, Structural)]
pub struct LifecycleError {
    pub released: bool,
}

/// The error taxonomy of the client layer.
///
/// A command that reaches the transport and fails comes back as
/// `Transport`; a response or event whose shape does not match the schema
/// comes back as `Decode`, distinctly, so callers can tell "call failed"
/// from "call succeeded but the shape changed".
#[derive(Debug, Clone, PartialEq)]
pub enum Error {
    Transport(TransportError),
    Encode(EncodeError),
    Decode(DecodeError),
    Lifecycle(LifecycleError),
}

impl Error {
    /// True exactly when this error reports a shape mismatch.
    pub fn is_decode(&self) -> (r: bool)
        ensures
            r == (self is Decode),
    {
        match self {
            Error::Decode(_) => true,
            _ => false,
        }
    }

    /// True exactly when this error reports a transport failure.
    pub fn is_transport(&self) -> (r: bool)
        ensures
            r == (self is Transport),
    {
        match self {
            Error::Transport(_) => true,
            _ => false,
        }
    }

    /// True exactly when this error reports a use of a torn-down handle.
    pub fn is_lifecycle(&self) -> (r: bool)
        ensures
            r == (self is Lifecycle),
    {
        match self {
            Error::Lifecycle(_) => true,
            _ => false,
        }
    }
}

} // verus!
