//! The ways in which an operation can fail.

use vstd::prelude::*;

verus! {

/// A failed operation.
#[derive(Debug, Clone)]
pub enum Error {
    /// The request could not be sent, or no whole response came back. The
    /// library sends nothing itself: whoever does reports such a failure
    /// with this variant.
    Transport(String),
    /// The server answered outside the 2xx range and gave a reason.
    Fault { code: u16, error: String },
    /// A body did not have the expected shape. `raw` holds the bytes received.
    Codec { raw: Vec<u8> },
    /// A request body could not be written as JSON. The bodies that this
    /// library writes itself always can; the variant is for callers that
    /// write their own.
    Encode,
    /// The address of a request is not a well-formed URI.
    Uri(String),
}

/// The mathematical content of an [`Error`].
pub enum ErrorView {
    Transport(Seq<char>),
    Fault { code: u16, error: Seq<char> },
    Codec { raw: Seq<u8> },
    Encode,
    Uri(Seq<char>),
}

impl View for Error {
    type V = ErrorView;

    open spec fn view(&self) -> ErrorView {
        match *self {
            Error::Transport(reason) => ErrorView::Transport(reason@),
            Error::Fault { code, error } => ErrorView::Fault { code, error: error@ },
            Error::Codec { raw } => ErrorView::Codec { raw: raw@ },
            Error::Encode => ErrorView::Encode,
            Error::Uri(text) => ErrorView::Uri(text@),
        }
    }
}

impl Error {
    /// True for a body that did not have the expected shape.
    pub fn is_codec(&self) -> (b: bool)
        ensures
            b == (self@ is Codec),
    {
        match self {
            Error::Codec { .. } => true,
            _ => false,
        }
    }

    /// The reason that the server gave for a fault, nothing for any other
    /// failure.
    pub fn fault_message(&self) -> (message: Option<&String>)
        ensures
            match message {
                Some(m) => self@ matches ErrorView::Fault { error, .. } && error == m@,
                None => !(self@ is Fault),
            },
    {
        match self {
            Error::Fault { error, .. } => Some(error),
            _ => None,
        }
    }

    /// The status code of a fault, nothing for any other failure.
    pub fn fault_code(&self) -> (code: Option<u16>)
        ensures
            code == match self@ {
                ErrorView::Fault { code, .. } => Some(code),
                _ => None,
            },
    {
        match self {
            Error::Fault { code, .. } => Some(*code),
            _ => None,
        }
    }
}

} // verus!
