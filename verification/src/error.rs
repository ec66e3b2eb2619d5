//! Errors of HTTP/2 operations.
pub use super::frame::Reason;
use vstd::prelude::*;

verus! {

/// Represents HTTP/2 operation errors.
///
/// `Error` covers error cases raised by protocol errors caused by the peer,
/// I/O (transport) errors, and errors caused by the user of the library.
/// If the error was caused by the remote peer, `reason` gives its [`Reason`].
#[derive(Debug)]
pub struct Error {
    kind: Kind,
}

#[derive(Debug)]
enum Kind {
    /// An error caused by an action taken by the remote peer.
    Proto(Reason),
    /// An error resulting from an invalid action taken by the user of this
    /// library.
    User(UserError),
    /// An `io::Error` occurred while trying to read or write.
    Io(std::io::Error),
}

/// Which kind of error an `Error` is.
pub enum ErrorModel {
    Proto(Reason),
    User,
    Io,
}

impl View for Error {
    type V = ErrorModel;

    closed spec fn view(&self) -> ErrorModel {
        match self.kind {
            Kind::Proto(r) => ErrorModel::Proto(r),
            Kind::User(_) => ErrorModel::User,
            Kind::Io(_) => ErrorModel::Io,
        }
    }
}

impl Error {
    /// The reason the peer gave, for a protocol error.
    pub fn reason(&self) -> (r: Option<Reason>)
        ensures
            r == (match self@ {
                ErrorModel::Proto(x) => Some(x),
                _ => None,
            }),
    {
        match &self.kind {
            Kind::Proto(reason) => Some(*reason),
            _ => None,
        }
    }
}

impl From<Reason> for Error {
    fn from(src: Reason) -> (r: Error) {
        Error { kind: Kind::Proto(src) }
    }
}

impl vstd::std_specs::convert::FromSpecImpl<Reason> for Error {
    open spec fn obeys_from_spec() -> bool {
        true
    }

    closed spec fn from_spec(src: Reason) -> Error {
        Error { kind: Kind::Proto(src) }
    }
}

impl From<UserError> for Error {
    fn from(src: UserError) -> (r: Error) {
        Error { kind: Kind::User(src) }
    }
}

impl vstd::std_specs::convert::FromSpecImpl<UserError> for Error {
    open spec fn obeys_from_spec() -> bool {
        true
    }

    closed spec fn from_spec(src: UserError) -> Error {
        Error { kind: Kind::User(src) }
    }
}

impl From<std::io::Error> for Error {
    fn from(src: std::io::Error) -> (r: Error) {
        Error { kind: Kind::Io(src) }
    }
}

impl vstd::std_specs::convert::FromSpecImpl<std::io::Error> for Error {
    open spec fn obeys_from_spec() -> bool {
        true
    }

    closed spec fn from_spec(src: std::io::Error) -> Error {
        Error { kind: Kind::Io(src) }
    }
}

/// What each conversion into `Error` makes: a protocol error keeps its
/// reason, a user error and an I/O error are classed as such.
pub proof fn lemma_error_from(reason: Reason, user: UserError, io: std::io::Error)
    ensures
        <Error as vstd::std_specs::convert::FromSpec<Reason>>::from_spec(reason)@ == ErrorModel::Proto(reason),
        <Error as vstd::std_specs::convert::FromSpec<UserError>>::from_spec(user)@ == ErrorModel::User,
        <Error as vstd::std_specs::convert::FromSpec<std::io::Error>>::from_spec(io)@ == ErrorModel::Io,
{
}

/// Sending on a closed or full channel failed.
#[derive(Debug, Clone, Copy, PartialEq, Eq)]
pub struct SendError;

/// The user of the library did something it does not allow.
#[derive(Debug, Clone, Copy, PartialEq, Eq)]
pub struct UserError;

} // verus!
