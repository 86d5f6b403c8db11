//! The ways in which an operation of the client fails.

use vstd::prelude::*;
use vstd::string::*;

verus! {

/// What an [`Error`] stands for.
pub enum ErrorView {
    UnknownLang,
    MissingLang,
    MissingMain,
    InvalidLanguage,
    BadRequest,
    Unknown(Seq<char>),
    Request(Seq<char>),
}

impl ErrorView {
    /// The sentence that describes the error.
    pub open spec fn text(self) -> Seq<char> {
        match self {
            ErrorView::UnknownLang => "Unknown language. See the API instead."@,
            ErrorView::MissingLang => "Missing language."@,
            ErrorView::MissingMain => "Missing main / code."@,
            ErrorView::InvalidLanguage => "Invalid language."@,
            ErrorView::BadRequest => "Bad request formed."@,
            ErrorView::Unknown(message) => "Unknown error caught: "@ + message + "."@,
            ErrorView::Request(diagnostic) => "Request error: "@ + diagnostic,
        }
    }
}

/// An error of the client.
#[derive(Debug)]
pub enum Error {
    /// No entry of the catalog answers to the language that was asked for.
    UnknownLang,
    /// No language was given.
    MissingLang,
    /// No main file or code was given.
    MissingMain,
    /// The language that was given is not valid.
    InvalidLanguage,
    /// The request was malformed.
    BadRequest,
    /// The service turned the request down, with this message.
    Unknown(String),
    /// The exchange with the service failed, with this diagnostic of the
    /// transport.
    Request(String),
}

impl View for Error {
    type V = ErrorView;

    open spec fn view(&self) -> ErrorView {
        match self {
            Error::UnknownLang => ErrorView::UnknownLang,
            Error::MissingLang => ErrorView::MissingLang,
            Error::MissingMain => ErrorView::MissingMain,
            Error::InvalidLanguage => ErrorView::InvalidLanguage,
            Error::BadRequest => ErrorView::BadRequest,
            Error::Unknown(message) => ErrorView::Unknown(message@),
            Error::Request(diagnostic) => ErrorView::Request(diagnostic@),
        }
    }
}

impl Error {
    /// The sentence that describes the error.
    #[allow(clippy::inherent_to_string)]
    pub fn to_string(&self) -> (text: String)
        ensures
            text@ == self@.text(),
    {
        match self {
            Error::UnknownLang => String::from_str("Unknown language. See the API instead."),
            Error::MissingLang => String::from_str("Missing language."),
            Error::MissingMain => String::from_str("Missing main / code."),
            Error::InvalidLanguage => String::from_str("Invalid language."),
            Error::BadRequest => String::from_str("Bad request formed."),
            Error::Unknown(message) => {
                let mut text = String::from_str("Unknown error caught: ");
                text.append(message.as_str());
                text.append(".");
                text
            },
            Error::Request(diagnostic) => {
                let mut text = String::from_str("Request error: ");
                text.append(diagnostic.as_str());
                text
            },
        }
    }
}

} // verus!
