//! The `fit` parameter: how the requested box and the picture are reconciled.

use vstd::prelude::*;
use vstd::string::StringExecFns;

use crate::handler::query::error::Error;
use crate::handler::query::text::chars_of;
use crate::handler::query::text::equals;

verus! {

/// How a picture is brought to the requested width and height.
#[derive(Debug, PartialEq, Eq, Clone, Copy, Structural)]
pub enum Fit {
    /// Cover the box, then cut away what sticks out.
    Crop,
    /// Stretch to the box.
    Scale,
}

impl Fit {
    /// The fit mode that `value` names, if it names one.
    pub open spec fn spec_parse(value: Seq<char>) -> Option<Fit> {
        if value == "crop"@ {
            Some(Fit::Crop)
        } else if value == "scale"@ {
            Some(Fit::Scale)
        } else {
            None
        }
    }

    /// Reads a fit mode: `crop` or `scale`. Any other value is rejected and
    /// handed back in the error.
    pub fn parse(value: &str) -> (fit: Result<Fit, Error>)
        ensures
            match fit {
                Ok(mode) => Fit::spec_parse(value@) == Some(mode),
                Err(error) => error matches Error::UnknownFit(given) && given@ == value@
                    && Fit::spec_parse(value@) is None,
            },
    {
        let chars = chars_of(value);
        if equals(&chars, "crop") {
            Ok(Fit::Crop)
        } else if equals(&chars, "scale") {
            Ok(Fit::Scale)
        } else {
            Err(Error::UnknownFit(String::from_str(value)))
        }
    }
}

} // verus!
