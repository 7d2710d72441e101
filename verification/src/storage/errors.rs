//! Why a picture could not be fetched.

use vstd::prelude::*;
use vstd::string::StringExecFns;

verus! {

/// The status that reports a fetch that failed for no known reason.
pub const INTERNAL_SERVER_ERROR: u16 = 500;

/// The status that reports a picture that the origin does not have.
pub const NOT_FOUND: u16 = 404;

/// Whether a number is a status code: it has three digits.
pub open spec fn is_status(code: u16) -> bool {
    100 <= code <= 999
}

/// The failure of a fetch.
#[derive(Debug, PartialEq, Eq)]
pub enum Error {
    /// The origin has no object at the path.
    ObjectNotFound { path: String },
    /// The request to the origin failed; holds the status that came with the
    /// failure, if one did, and its description.
    Reqwest { status: Option<u16>, message: String },
    /// The origin answered with an error.
    Upstream { status_code: Option<u16>, message: String },
}

impl Error {
    /// The status that reports the failure to the client: that of the
    /// origin's answer or of the failed request where there is one, 404 for
    /// an object that is not there, and 500 where no status is at hand.
    pub open spec fn spec_status_code(&self) -> u16 {
        match self {
            Error::Upstream { status_code: Some(code), .. } => *code,
            Error::Upstream { status_code: None, .. } => INTERNAL_SERVER_ERROR,
            Error::ObjectNotFound { .. } => NOT_FOUND,
            Error::Reqwest { status: Some(code), .. } => *code,
            Error::Reqwest { status: None, .. } => INTERNAL_SERVER_ERROR,
        }
    }

    /// Whether the failure can be reported: a status that came from the
    /// origin is a status code.
    pub open spec fn reportable(&self) -> bool {
        match self {
            Error::Upstream { status_code: Some(code), .. } => is_status(*code),
            Error::Reqwest { status: Some(code), .. } => is_status(*code),
            _ => true,
        }
    }

    /// Whether the failure can be reported.
    pub fn is_reportable(&self) -> (can: bool)
        ensures
            can == self.reportable(),
    {
        match self {
            Error::Upstream { status_code: Some(code), .. } => 100 <= *code && *code <= 999,
            Error::Reqwest { status: Some(code), .. } => 100 <= *code && *code <= 999,
            _ => true,
        }
    }

    /// The status that reports the failure to the client.
    pub fn status_code(&self) -> (status: u16)
        requires
            self.reportable(),
        ensures
            status == self.spec_status_code(),
            is_status(status),
    {
        match self {
            Error::Upstream { status_code, .. } => match status_code {
                Some(code) => *code,
                None => INTERNAL_SERVER_ERROR,
            },
            Error::ObjectNotFound { .. } => NOT_FOUND,
            Error::Reqwest { status, .. } => match status {
                Some(code) => *code,
                None => INTERNAL_SERVER_ERROR,
            },
        }
    }

    /// The text of the message that reports this error.
    pub open spec fn spec_message(&self) -> Seq<char> {
        match self {
            Error::ObjectNotFound { path } => "object not found at: "@ + path@,
            Error::Reqwest { message, .. } => "reqwest error: "@ + message@,
            Error::Upstream { message, .. } => "upstream error: "@ + message@,
        }
    }

    /// The message that reports this error.
    pub fn message(&self) -> (text: String)
        ensures
            text@ == self.spec_message(),
    {
        match self {
            Error::ObjectNotFound { path } => {
                let mut text = String::from_str("object not found at: ");
                text.append(path.as_str());
                text
            },
            Error::Reqwest { message, .. } => {
                let mut text = String::from_str("reqwest error: ");
                text.append(message.as_str());
                text
            },
            Error::Upstream { message, .. } => {
                let mut text = String::from_str("upstream error: ");
                text.append(message.as_str());
                text
            },
        }
    }
}

} // verus!
