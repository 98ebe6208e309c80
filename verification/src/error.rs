//! Errors raised when a whitelist command cannot be carried out.

use vstd::prelude::*;
use vstd::string::StringExecFns;

verus! {

/// What went wrong with a whitelist command.
#[derive(Debug, Clone, Copy, PartialEq, Eq, Structural)]
pub enum WhitelistErrorKind {
    /// The server answered that it knows no player of that name.
    NonExistingPlayer,
    /// The server could not be reached, or refused the shared secret.
    RCONConnectionError,
    /// Anything else.
    Other,
}

/// Detail carried by an [`Error`]: a human-readable message.
pub trait WhitelistErrorInfo: Send + Sync {
    /// The message as a sequence of characters.
    spec fn message_text(&self) -> Seq<char>;

    /// The message.
    fn message(&self) -> (r: &str)
        ensures
            r@ == self.message_text(),
    ;
}

impl WhitelistErrorInfo for String {
    open spec fn message_text(&self) -> Seq<char> {
        self@
    }

    fn message(&self) -> (r: &str) {
        self.as_str()
    }
}

/// An error of this library.
pub enum Error {
    /// A whitelist command failed; the kind and the detail.
    WhitelistError(WhitelistErrorKind, Box<dyn WhitelistErrorInfo>),
}

impl Error {
    /// The kind of failure.
    pub open spec fn kind_spec(&self) -> WhitelistErrorKind {
        match *self {
            Error::WhitelistError(kind, _) => kind,
        }
    }

    /// The message as a sequence of characters.
    pub open spec fn text(&self) -> Seq<char> {
        match *self {
            Error::WhitelistError(_, info) => info.message_text(),
        }
    }

    /// The kind of failure.
    pub fn kind(&self) -> (r: WhitelistErrorKind)
        ensures
            r == self.kind_spec(),
    {
        match self {
            Error::WhitelistError(kind, _) => *kind,
        }
    }

    /// The error as it is shown to a reader: the message of the detail.
    pub fn to_text(&self) -> (r: String)
        ensures
            r@ == self.text(),
    {
        String::from_str(self.description())
    }

    /// The message of the detail.
    pub fn description(&self) -> (r: &str)
        ensures
            r@ == self.text(),
    {
        match self {
            Error::WhitelistError(_, info) => info.message(),
        }
    }
}

} // verus!
