//! The failures a call can end in.

use vstd::prelude::*;

verus! {

/// The structured failure the remote API reports inside a response body:
/// a message, a category tag, and optionally the offending parameter's
/// name and a numeric code.
#[derive(Debug, Clone)]
pub struct ErrorMessage {
    pub message: String,
    pub error_type: String,
    pub param: Option<String>,
    pub code: Option<i64>,
}

pub ghost struct ErrorMessageV {
    pub message: Seq<char>,
    pub error_type: Seq<char>,
    pub param: Option<Seq<char>>,
    pub code: Option<int>,
}

impl View for ErrorMessage {
    type V = ErrorMessageV;

    open spec fn view(&self) -> ErrorMessageV {
        ErrorMessageV {
            message: self.message@,
            error_type: self.error_type@,
            param: match self.param {
                Some(p) => Some(p@),
                None => None,
            },
            code: match self.code {
                Some(c) => Some(c as int),
                None => None,
            },
        }
    }
}

/// An error reported by the remote API.
#[derive(Debug, Clone)]
pub struct RequestError {
    pub error: ErrorMessage,
}

pub ghost struct RequestErrorV {
    pub error: ErrorMessageV,
}

impl View for RequestError {
    type V = RequestErrorV;

    open spec fn view(&self) -> RequestErrorV {
        RequestErrorV { error: self.error@ }
    }
}

/// Everything that can go wrong during one interaction with the API.
#[derive(Debug)]
pub enum Error {
    /// The remote API reported a structured failure.
    APIError(RequestError),
    /// The transport failed before a body could be decoded; the
    /// surrounding program constructs this from its HTTP client's report.
    Transport(String),
    /// The resource path could not be joined to the base URL.
    UrlError(String),
    /// The response bytes match neither the expected payload shape nor
    /// the error shape; the offending bytes are kept for diagnosis.
    DecodeError(Vec<u8>),
    /// A builder was finished while a required field was missing; the
    /// field is named.
    FieldError(String),
}

pub ghost enum ErrorV {
    APIError(RequestErrorV),
    Transport(Seq<char>),
    UrlError(Seq<char>),
    DecodeError(Seq<u8>),
    FieldError(Seq<char>),
}

impl View for Error {
    type V = ErrorV;

    open spec fn view(&self) -> ErrorV {
        match self {
            Error::APIError(e) => ErrorV::APIError(e@),
            Error::Transport(s) => ErrorV::Transport(s@),
            Error::UrlError(s) => ErrorV::UrlError(s@),
            Error::DecodeError(b) => ErrorV::DecodeError(b@),
            Error::FieldError(s) => ErrorV::FieldError(s@),
        }
    }
}

} // verus!
