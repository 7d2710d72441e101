//! Why a stage failed.

use vstd::prelude::*;
use vstd::string::StringExecFns;

verus! {

/// The failure of a stage.
#[derive(Debug, PartialEq, Eq)]
pub enum Error {
    /// A failure described in words.
    Generic(String),
    /// The graphics device failed.
    GPUError,
    /// A buffer of the graphics device could not be mapped for reading.
    BufferError,
    /// The bytes at hand are too few for a picture of the size expected.
    ImageBufferCreateError,
}

impl Error {
    /// The text of the message that reports this error.
    pub open spec fn spec_message(&self) -> Seq<char> {
        match self {
            Error::Generic(words) => "error: "@ + words@,
            Error::GPUError => "processor: gpu error"@,
            Error::BufferError => "Error occurred when trying to async map a buffer"@,
            Error::ImageBufferCreateError => "processor: failed to create image buffer"@,
        }
    }

    /// The message that reports this error.
    pub fn message(&self) -> (text: String)
        ensures
            text@ == self.spec_message(),
    {
        match self {
            Error::Generic(words) => {
                let mut text = String::from_str("error: ");
                text.append(words.as_str());
                text
            },
            Error::GPUError => String::from_str("processor: gpu error"),
            Error::BufferError => String::from_str(
                "Error occurred when trying to async map a buffer",
            ),
            Error::ImageBufferCreateError => String::from_str(
                "processor: failed to create image buffer",
            ),
        }
    }
}

} // verus!
