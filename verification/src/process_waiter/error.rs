//! What can go wrong around the supervisor.

use crate::text::push_text;
use vstd::prelude::*;

verus! {

/// Why the supervisor could not do its work.
#[derive(Clone, Debug, PartialEq, Eq)]
pub enum Error {
    InternalError { description: String },
    PathDoesNotExist { name: String },
}

/// An error as a mathematical value.
pub enum ErrorView {
    InternalError { description: Seq<char> },
    PathDoesNotExist { name: Seq<char> },
}

impl View for Error {
    type V = ErrorView;

    open spec fn view(&self) -> ErrorView {
        match self {
            Error::InternalError { description } => ErrorView::InternalError {
                description: description@,
            },
            Error::PathDoesNotExist { name } => ErrorView::PathDoesNotExist { name: name@ },
        }
    }
}

impl ErrorView {
    /// The sentence that reports the error.
    pub open spec fn message_text(self) -> Seq<char> {
        match self {
            ErrorView::InternalError { description } => "internal error occurred: "@
                + description,
            ErrorView::PathDoesNotExist { name } => "path does not exist: "@ + name,
        }
    }
}

impl Error {
    /// The sentence that reports the error.
    pub fn message(&self) -> (text: String)
        ensures
            text@ == self@.message_text(),
    {
        let mut text = String::new();
        match self {
            Error::InternalError { description } => {
                push_text(&mut text, "internal error occurred: ");
                push_text(&mut text, description.as_str());
            },
            Error::PathDoesNotExist { name } => {
                push_text(&mut text, "path does not exist: ");
                push_text(&mut text, name.as_str());
            },
        }
        text
    }
}

} // verus!
