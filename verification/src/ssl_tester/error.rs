//! What can go wrong in a TLS test before any connection is made.

use crate::text::push_text;
use vstd::prelude::*;

verus! {

/// Why a test was not carried out.
#[derive(Clone, Debug, PartialEq, Eq)]
pub enum Error {
    InternalError { description: String },
    UnknownProtocolVersion { version: String },
    UnknownSslVerifyMode { mode: String },
    ConflictingOptions(&'static str, &'static str),
}

/// An error as a mathematical value.
pub enum ErrorView {
    InternalError { description: Seq<char> },
    UnknownProtocolVersion { version: Seq<char> },
    UnknownSslVerifyMode { mode: Seq<char> },
    ConflictingOptions(Seq<char>, Seq<char>),
}

impl View for Error {
    type V = ErrorView;

    open spec fn view(&self) -> ErrorView {
        match self {
            Error::InternalError { description } => ErrorView::InternalError {
                description: description@,
            },
            Error::UnknownProtocolVersion { version } => ErrorView::UnknownProtocolVersion {
                version: version@,
            },
            Error::UnknownSslVerifyMode { mode } => ErrorView::UnknownSslVerifyMode { mode: mode@ },
            Error::ConflictingOptions(first, second) => ErrorView::ConflictingOptions(
                first@,
                second@,
            ),
        }
    }
}

impl ErrorView {
    /// The sentence that reports the error.
    pub open spec fn message_text(self) -> Seq<char> {
        match self {
            ErrorView::InternalError { description } => "internal error occurred: "@
                + description,
            ErrorView::UnknownProtocolVersion { version } => "unknown SSL/TLS protocol version: "@
                + version,
            ErrorView::UnknownSslVerifyMode { mode } => "unknown SSL verify mode: "@ + mode,
            ErrorView::ConflictingOptions(first, second) => "conflicting options: "@ + first
                + " and "@ + second,
        }
    }
}

impl Error {
    /// The sentence that reports the error.
    pub fn message(&self) -> (text: String)
        ensures
            text@ == self@.message_text(),
    {
        let mut text = String::new();
        match self {
            Error::InternalError { description } => {
                push_text(&mut text, "internal error occurred: ");
                push_text(&mut text, description.as_str());
            },
            Error::UnknownProtocolVersion { version } => {
                push_text(&mut text, "unknown SSL/TLS protocol version: ");
                push_text(&mut text, version.as_str());
            },
            Error::UnknownSslVerifyMode { mode } => {
                push_text(&mut text, "unknown SSL verify mode: ");
                push_text(&mut text, mode.as_str());
            },
            Error::ConflictingOptions(first, second) => {
                push_text(&mut text, "conflicting options: ");
                push_text(&mut text, first);
                push_text(&mut text, " and ");
                push_text(&mut text, second);
            },
        }
        text
    }
}

} // verus!
