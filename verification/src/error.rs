//! The library's error taxonomy.
//!
//! A failure is either a transport failure of the underlying bus call, an
//! optional property that the target does not implement, or a value that
//! could not be decoded as the expected type.

use vstd::prelude::*;

use crate::item::Modeled;
use crate::item::StreamItem;

verus! {

/// A failed bus interaction.
#[derive(Debug, PartialEq)]
pub enum Error {
    /// The underlying call to the bus failed.
    Transport(String),
    /// The target does not implement an optional property.
    Unsupported,
    /// A value could not be interpreted as the expected type.
    Decode(String),
}

/// The mathematical model of an [`Error`].
pub enum ErrorModel {
    /// The underlying call to the bus failed.
    Transport(Seq<char>),
    /// The target does not implement an optional property.
    Unsupported,
    /// A value could not be interpreted as the expected type.
    Decode(Seq<char>),
}

impl Modeled for Error {
    type Model = ErrorModel;

    open spec fn model(&self) -> ErrorModel {
        match self {
            Error::Transport(m) => ErrorModel::Transport(m@),
            Error::Unsupported => ErrorModel::Unsupported,
            Error::Decode(m) => ErrorModel::Decode(m@),
        }
    }
}

impl StreamItem for Error {
    fn dup(&self) -> (r: Error)
        ensures
            r.model() == self.model(),
    {
        match self {
            Error::Transport(m) => Error::Transport(m.clone()),
            Error::Unsupported => Error::Unsupported,
            Error::Decode(m) => Error::Decode(m.clone()),
        }
    }

    fn same(&self, other: &Error) -> (r: bool)
        ensures
            r == (self.model() == other.model()),
    {
        match (self, other) {
            (Error::Transport(a), Error::Transport(b)) => a.eq(b),
            (Error::Unsupported, Error::Unsupported) => true,
            (Error::Decode(a), Error::Decode(b)) => a.eq(b),
            _ => false,
        }
    }
}

impl Error {
    /// A short description of the failure.
    pub fn message(&self) -> (r: String)
        ensures
            r@ == (match self.model() {
                ErrorModel::Transport(m) => "transport failure: "@ + m,
                ErrorModel::Unsupported => "unsupported property"@,
                ErrorModel::Decode(m) => "decode failure: "@ + m,
            }),
    {
        match self {
            Error::Transport(m) => String::from_str("transport failure: ").concat(m.as_str()),
            Error::Unsupported => String::from_str("unsupported property"),
            Error::Decode(m) => String::from_str("decode failure: ").concat(m.as_str()),
        }
    }
}

} // verus!
