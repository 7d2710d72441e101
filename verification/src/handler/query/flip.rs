//! The `flip` parameter: the axes along which the picture is mirrored.

use vstd::prelude::*;

use crate::handler::query::error::Error;
use crate::handler::query::text::chars_of;
use crate::handler::query::text::equals;

verus! {

/// The axes along which a picture is mirrored.
#[derive(Debug, PartialEq, Eq, Clone, Copy, Structural)]
pub enum Flip {
    /// Left to right.
    Horizontal,
    /// Top to bottom.
    Vertical,
    /// Both.
    VerticalHorizontal,
}

impl Flip {
    /// The flip mode that `value` names, if it names one.
    pub open spec fn spec_parse(value: Seq<char>) -> Option<Flip> {
        if value == "h"@ {
            Some(Flip::Horizontal)
        } else if value == "v"@ {
            Some(Flip::Vertical)
        } else if value == "vh"@ || value == "hv"@ {
            Some(Flip::VerticalHorizontal)
        } else {
            None
        }
    }

    /// Reads a flip mode: `h`, `v`, or `vh` and its other spelling `hv`.
    pub fn parse(value: &str) -> (flip: Result<Flip, Error>)
        ensures
            match flip {
                Ok(mode) => Flip::spec_parse(value@) == Some(mode),
                Err(error) => Flip::spec_parse(value@) is None && error == Error::InvalidFlip,
            },
    {
        let chars = chars_of(value);
        if equals(&chars, "h") {
            Ok(Flip::Horizontal)
        } else if equals(&chars, "v") {
            Ok(Flip::Vertical)
        } else if equals(&chars, "vh") || equals(&chars, "hv") {
            Ok(Flip::VerticalHorizontal)
        } else {
            Err(Error::InvalidFlip)
        }
    }
}

} // verus!
