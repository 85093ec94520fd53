use vstd::prelude::*;

verus! {

/// The errors that a conversion can end with.
#[derive(Debug)]
pub enum Error {
    /// The typesetting function threw; this is the best readable message of
    /// what it threw.
    V8ExceptionThrown(String),
    /// The engine reported a failed call but held no exception.
    Unreacheable,
    /// A value could not be passed between the host and the engine.
    Other(String),
}

/// An [`Error`] with its text as a sequence of characters.
pub enum ErrorView {
    V8ExceptionThrown(Seq<char>),
    Unreacheable,
    Other(Seq<char>),
}

impl View for Error {
    type V = ErrorView;

    open spec fn view(&self) -> ErrorView {
        match self {
            Error::V8ExceptionThrown(m) => ErrorView::V8ExceptionThrown(m@),
            Error::Unreacheable => ErrorView::Unreacheable,
            Error::Other(m) => ErrorView::Other(m@),
        }
    }
}

/// The text shown for an error the engine did not explain.
pub const UNKNOWN_ERROR_TEXT: &'static str = "unknown error";

/// The human-readable text of an error.
pub open spec fn error_text(e: ErrorView) -> Seq<char> {
    match e {
        ErrorView::V8ExceptionThrown(m) => m,
        ErrorView::Unreacheable => UNKNOWN_ERROR_TEXT@,
        ErrorView::Other(m) => m,
    }
}

impl Error {
    /// The human-readable text of this error: the thrown message, the
    /// description of a failed exchange, or "unknown error".
    pub fn message(&self) -> (r: String)
        ensures
            r@ == error_text(self@),
    {
        match self {
            Error::V8ExceptionThrown(m) => m.clone(),
            Error::Unreacheable => UNKNOWN_ERROR_TEXT.to_owned(),
            Error::Other(m) => m.clone(),
        }
    }
}

} // verus!
