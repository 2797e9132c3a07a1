//! The unified error type of the library.

use vstd::prelude::*;

verus! {

/// Error returned by every fallible operation of the library.
#[derive(Debug, Clone)]
pub enum Error {
    /// Failure while building, sending or reading a netlink message.
    Netlink(String),
    /// An argument or a kernel reply did not have the expected shape.
    Argument(String),
    /// A requested attribute or object does not exist.
    NotFound(String),
    /// Failure of the underlying socket.
    Io(String),
}

/// Mathematical view of an [`Error`]: its kind and its message.
pub enum ErrorView {
    Netlink(Seq<char>),
    Argument(Seq<char>),
    NotFound(Seq<char>),
    Io(Seq<char>),
}

impl View for Error {
    type V = ErrorView;

    open spec fn view(&self) -> ErrorView {
        match self {
            Error::Netlink(m) => ErrorView::Netlink(m@),
            Error::Argument(m) => ErrorView::Argument(m@),
            Error::NotFound(m) => ErrorView::NotFound(m@),
            Error::Io(m) => ErrorView::Io(m@),
        }
    }
}

impl Error {
    /// A copy of the error, of the same kind and with the same message.
    pub fn duplicate(&self) -> (r: Error)
        ensures
            r@ == self@,
    {
        match self {
            Error::Netlink(m) => Error::Netlink(m.clone()),
            Error::Argument(m) => Error::Argument(m.clone()),
            Error::NotFound(m) => Error::NotFound(m.clone()),
            Error::Io(m) => Error::Io(m.clone()),
        }
    }

    /// The message carried by the error.
    pub fn message(&self) -> (m: &String)
        ensures
            m@ == match self@ {
                ErrorView::Netlink(s) => s,
                ErrorView::Argument(s) => s,
                ErrorView::NotFound(s) => s,
                ErrorView::Io(s) => s,
            },
    {
        match self {
            Error::Netlink(m) => m,
            Error::Argument(m) => m,
            Error::NotFound(m) => m,
            Error::Io(m) => m,
        }
    }
}

} // verus!
