//! Rendering in shades of grey.

use vstd::prelude::*;

use crate::handler::query::monochrome::MonoChrome as QueryMonoChrome;
use crate::processor::Processor;
use crate::processor::error::Error;
use crate::processor::img::Image;
use crate::processor::img::ImageView;
use crate::processor::raster::Raster;
use crate::processor::raster::desaturated;
use crate::processor::raster::grayscale;

verus! {

/// Black.
pub open spec fn spec_black() -> QueryMonoChrome {
    QueryMonoChrome::RGB(0, 0, 0)
}

/// Black, fully transparent.
pub open spec fn spec_black_alpha() -> QueryMonoChrome {
    QueryMonoChrome::ARGB(0, 0, 0, 0)
}

/// Black.
#[verifier::when_used_as_spec(spec_black)]
pub fn black() -> (color: QueryMonoChrome)
    ensures
        color == spec_black(),
{
    QueryMonoChrome::RGB(0, 0, 0)
}

/// Black, fully transparent.
#[verifier::when_used_as_spec(spec_black_alpha)]
pub fn black_alpha() -> (color: QueryMonoChrome)
    ensures
        color == spec_black_alpha(),
{
    QueryMonoChrome::ARGB(0, 0, 0, 0)
}

/// The stage that renders the picture in shades of grey.
///
/// It does so where the colour asked for is one of [`black`] and
/// [`black_alpha`]. Any other colour leaves the image as it is.
pub struct MonoChrome {
    pub color: QueryMonoChrome,
}

impl MonoChrome {
    /// Whether the stage renders the picture in shades of grey: its colour is
    /// black or transparent black.
    pub open spec fn desaturates(&self) -> bool {
        self.color == black() || self.color == black_alpha()
    }

    /// The image that the stage leaves: the picture in shades of grey, at its
    /// size and under its source encoding, where the stage desaturates, and
    /// the image as it was where it does not.
    pub open spec fn output(&self, before: ImageView) -> ImageView {
        if self.desaturates() {
            let grey = desaturated(before.raster);
            ImageView {
                raster: Raster {
                    width: before.raster.width,
                    height: before.raster.height,
                    color: grey.color,
                    pixels: grey.pixels,
                },
                format: before.format,
            }
        } else {
            before
        }
    }
}

impl Processor for MonoChrome {
    open spec fn spec_name(&self) -> Option<Seq<char>> {
        Some("MonoChrome"@)
    }

    open spec fn accepts(&self, image: ImageView) -> bool {
        true
    }

    open spec fn transforms(
        &self,
        before: ImageView,
        after: ImageView,
        result: Result<(), Error>,
    ) -> bool {
        result is Ok && after == self.output(before)
    }

    fn name(&self) -> (name: &'static str) {
        "MonoChrome"
    }

    fn process(&self, image: &mut Image) -> (result: Result<(), Error>)
        ensures
            result is Ok,
            final(image)@ == self.output(old(image)@),
            !self.desaturates() ==> *final(image) == *old(image),
    {
        if self.color == black() || self.color == black_alpha() {
            let grey = grayscale(&image.inner);
            image.extend(grey);
        }
        Ok(())
    }
}

/// The stage keeps the size of the picture and its source encoding whatever
/// the colour, and it is set off by black and by transparent black alone.
pub proof fn lemma_monochrome_keeps_the_size(stage: MonoChrome, before: ImageView)
    ensures
        stage.output(before).raster.width == before.raster.width,
        stage.output(before).raster.height == before.raster.height,
        stage.output(before).format == before.format,
        stage.desaturates() <==> stage.color == QueryMonoChrome::RGB(0, 0, 0) || stage.color
            == QueryMonoChrome::ARGB(0, 0, 0, 0),
        !stage.desaturates() ==> stage.output(before) == before,
{
}

} // verus!
