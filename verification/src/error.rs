//! The error type that every fallible operation of this crate reports.

use vstd::prelude::*;

verus! {

/// What went wrong.
#[derive(Debug, Clone, PartialEq, Eq)]
pub enum Error {
    /// A file name that the service would not accept.
    FilenameError(String),
    /// The server could not be reached or did not answer; the text is the
    /// transport's own account of the failure.
    CommunicationError(String),
    /// The server answered, but refused or failed to render.
    RenderingError(String),
    /// A text could not be read as a value: the name of the type, the
    /// offending text, and the reason.
    ParseError(String, String, String),
}

/// The mathematical content of an [`Error`].
pub enum ErrorView {
    FilenameError(Seq<char>),
    CommunicationError(Seq<char>),
    RenderingError(Seq<char>),
    ParseError(Seq<char>, Seq<char>, Seq<char>),
}

impl View for Error {
    type V = ErrorView;

    open spec fn view(&self) -> ErrorView {
        match self {
            Error::FilenameError(e) => ErrorView::FilenameError(e@),
            Error::CommunicationError(e) => ErrorView::CommunicationError(e@),
            Error::RenderingError(e) => ErrorView::RenderingError(e@),
            Error::ParseError(t, s, e) => ErrorView::ParseError(t@, s@, e@),
        }
    }
}

impl ErrorView {
    /// The line that describes the error to a reader.
    pub open spec fn message(self) -> Seq<char> {
        match self {
            ErrorView::FilenameError(e) => "gotenberg_pdf: Filename Error: "@ + e,
            ErrorView::CommunicationError(e) =>
                "gotenberg_pdf: Error communicating with the guotenberg server: "@ + e,
            ErrorView::RenderingError(e) => "gotenberg_pdf: PDF / Image Rendering Error: "@ + e,
            ErrorView::ParseError(t, s, e) => "gotenberg_pdf: Error Parsing "@ + t + " from `"@ + s
                + "`: "@ + e,
        }
    }
}

impl Error {
    /// Builds a parse error from the name of the type, the offending text and
    /// the reason.
    pub fn parse_error(kind: &str, subject: &str, reason: String) -> (e: Error)
        ensures
            e@ == ErrorView::ParseError(kind@, subject@, reason@),
    {
        Error::ParseError(kind.to_owned(), subject.to_owned(), reason)
    }

    /// The line that describes the error to a reader.
    pub fn to_string(&self) -> (r: String)
        ensures
            r@ == self@.message(),
    {
        match self {
            Error::FilenameError(e) => {
                let mut r = "gotenberg_pdf: Filename Error: ".to_owned();
                r.append(e.as_str());
                r
            },
            Error::CommunicationError(e) => {
                let mut r =
                    "gotenberg_pdf: Error communicating with the guotenberg server: ".to_owned();
                r.append(e.as_str());
                r
            },
            Error::RenderingError(e) => {
                let mut r = "gotenberg_pdf: PDF / Image Rendering Error: ".to_owned();
                r.append(e.as_str());
                r
            },
            Error::ParseError(t, s, e) => {
                let mut r = "gotenberg_pdf: Error Parsing ".to_owned();
                r.append(t.as_str());
                r.append(" from `");
                r.append(s.as_str());
                r.append("`: ");
                r.append(e.as_str());
                r
            },
        }
    }
}

} // verus!
