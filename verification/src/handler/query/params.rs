//! All that a request may ask of a picture.

use vstd::prelude::*;

use crate::handler::query::auto::AutoFeature;
use crate::handler::query::crop::Crop;
use crate::handler::query::fit::Fit;
use crate::handler::query::flip::Flip;
use crate::handler::query::monochrome::MonoChrome;
use crate::handler::query::rotate::Rotate;
use crate::handler::query::vec::CommaSeparatedVec;

verus! {

/// The transforms that a request asks for. Every field may be absent.
#[derive(Debug, PartialEq)]
pub struct ProcessParams {
    /// The width of the requested box, in pixels.
    pub width: Option<u16>,
    /// The height of the requested box, in pixels.
    pub height: Option<u16>,
    /// The radius of the blur.
    pub blur: Option<u16>,
    /// How the picture is brought to the requested box.
    pub fit: Option<Fit>,
    /// What a crop holds on to.
    pub crop: Option<Crop>,
    /// The axes along which the picture is mirrored.
    pub flip: Option<Flip>,
    /// The angle by which the picture is turned.
    pub rotate: Option<Rotate>,
    /// The features left to the service.
    pub auto_features: Option<CommaSeparatedVec<AutoFeature>>,
    /// The colour of a monochrome rendering.
    pub monochrome: Option<MonoChrome>,
}

impl ProcessParams {
    /// Whether the request asks for nothing: every field is absent.
    pub open spec fn spec_is_noop(&self) -> bool {
        &&& self.width is None
        &&& self.height is None
        &&& self.blur is None
        &&& self.fit is None
        &&& self.crop is None
        &&& self.flip is None
        &&& self.rotate is None
        &&& self.auto_features is None
        &&& self.monochrome is None
    }

    /// Whether the request asks for nothing, so that the picture can be
    /// handed on as it came.
    pub fn is_noop(&self) -> (noop: bool)
        ensures
            noop == self.spec_is_noop(),
    {
        self.width.is_none() && self.height.is_none() && self.blur.is_none()
            && self.fit.is_none() && self.crop.is_none() && self.flip.is_none()
            && self.rotate.is_none() && self.auto_features.is_none()
            && self.monochrome.is_none()
    }
}

impl Default for ProcessParams {
    /// The request that asks for nothing.
    fn default() -> (params: Self)
        ensures
            params.spec_is_noop(),
    {
        ProcessParams {
            width: None,
            height: None,
            blur: None,
            fit: None,
            crop: None,
            flip: None,
            rotate: None,
            auto_features: None,
            monochrome: None,
        }
    }
}

} // verus!
