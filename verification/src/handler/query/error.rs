//! Why a parameter value was rejected.

use vstd::prelude::*;
use vstd::string::StringExecFns;

verus! {

/// The reason for which the value of a request parameter was not accepted.
#[derive(Debug, PartialEq, Eq)]
pub enum Error {
    /// The crop anchor names no known position; holds the value as given.
    InvalidCrop(String),
    /// The flip mode is none of `h`, `v`, `vh` and `hv`.
    InvalidFlip,
    /// The colour has a number of digits other than 3, 4, 6 or 8.
    InvalidHexColor,
    /// The colour holds a character that is no hexadecimal digit.
    InvalidHexDigit,
    /// The fit mode is neither `crop` nor `scale`; holds the value as given.
    UnknownFit(String),
    /// The automatic feature is neither `compress` nor `format`; holds the
    /// value as given.
    UnknownFeature(String),
}

impl Error {
    /// The text of the message that reports this error.
    pub open spec fn spec_message(&self) -> Seq<char> {
        match self {
            Error::InvalidCrop(value) => "invalid crop: "@ + value@,
            Error::InvalidFlip => "invalid flip value"@,
            Error::InvalidHexColor => "invalid hex color"@,
            Error::InvalidHexDigit => "invalid digit found in string"@,
            Error::UnknownFit(value) => "unknown variant `"@ + value@
                + "`, expected `crop` or `scale`"@,
            Error::UnknownFeature(value) => "unknown variant `"@ + value@
                + "`, expected `compress` or `format`"@,
        }
    }

    /// The message that reports this error.
    pub fn message(&self) -> (text: String)
        ensures
            text@ == self.spec_message(),
    {
        match self {
            Error::InvalidCrop(value) => {
                let mut text = String::from_str("invalid crop: ");
                text.append(value.as_str());
                text
            },
            Error::InvalidFlip => String::from_str("invalid flip value"),
            Error::InvalidHexColor => String::from_str("invalid hex color"),
            Error::InvalidHexDigit => String::from_str("invalid digit found in string"),
            Error::UnknownFit(value) => {
                let mut text = String::from_str("unknown variant `");
                text.append(value.as_str());
                text.append("`, expected `crop` or `scale`");
                text
            },
            Error::UnknownFeature(value) => {
                let mut text = String::from_str("unknown variant `");
                text.append(value.as_str());
                text.append("`, expected `compress` or `format`");
                text
            },
        }
    }
}

} // verus!
