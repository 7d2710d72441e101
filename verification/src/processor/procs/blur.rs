//! Gaussian blur: what is asked of it. The blur itself is left to a backend.

use image::DynamicImage;
use vstd::prelude::*;

use crate::processor::error::Error;
use crate::processor::img::Image;
use crate::processor::raster::dimensions;
use crate::processor::raster::raster;

verus! {

/// The largest radius that a blur is carried out with.
pub const MAX_BLUR_RADIUS: u16 = 2000;

/// A Gaussian blur of a given radius. It is carried out by a backend, with
/// the radius cut down to [`MAX_BLUR_RADIUS`] and a standard deviation of a
/// third of that radius. Whatever the backend, a radius of 0 leaves the
/// picture as it is, and the blurred picture has the size of the picture that
/// went in.
#[derive(Debug, PartialEq, Eq, Clone, Copy, Structural)]
pub struct Blur {
    pub radius: u16,
}

impl Blur {
    /// Whether the blur leaves the picture as it is: its radius is 0.
    pub open spec fn spec_is_noop(&self) -> bool {
        self.radius == 0
    }

    /// The radius that the blur is carried out with.
    pub open spec fn spec_clamped_radius(&self) -> u16 {
        if self.radius > MAX_BLUR_RADIUS {
            MAX_BLUR_RADIUS
        } else {
            self.radius
        }
    }

    /// Whether the blur leaves the picture as it is.
    #[verifier::when_used_as_spec(spec_is_noop)]
    pub fn is_noop(&self) -> (noop: bool)
        ensures
            noop == self.spec_is_noop(),
    {
        self.radius == 0
    }

    /// The radius that the blur is carried out with: the radius asked for,
    /// but no more than [`MAX_BLUR_RADIUS`].
    #[verifier::when_used_as_spec(spec_clamped_radius)]
    pub fn clamped_radius(&self) -> (radius: u16)
        ensures
            radius == self.spec_clamped_radius(),
            radius <= MAX_BLUR_RADIUS,
            radius == 0 <==> self.spec_is_noop(),
    {
        if self.radius > MAX_BLUR_RADIUS {
            MAX_BLUR_RADIUS
        } else {
            self.radius
        }
    }

    /// Takes in what a backend has made of the picture. A blur of radius 0
    /// takes in nothing: the image stays as it is. Any other blur takes the
    /// blurred picture in the place of the image's, if it has the size of the
    /// image's, and fails if it has not.
    pub fn finish(&self, image: &mut Image, blurred: DynamicImage) -> (result: Result<(), Error>)
        ensures
            self.spec_is_noop() ==> result is Ok && *final(image) == *old(image),
            !self.spec_is_noop() ==> {
                let same_size = raster(blurred).width == old(image)@.raster.width && raster(
                    blurred,
                ).height == old(image)@.raster.height;
                if same_size {
                    &&& result is Ok
                    &&& final(image).inner == blurred
                    &&& final(image).format == old(image).format
                } else {
                    &&& result == Err::<(), Error>(Error::ImageBufferCreateError)
                    &&& *final(image) == *old(image)
                }
            },
            result is Ok ==> {
                &&& final(image)@.raster.width == old(image)@.raster.width
                &&& final(image)@.raster.height == old(image)@.raster.height
                &&& final(image)@.format == old(image)@.format
            },
    {
        if self.radius == 0 {
            return Ok(());
        }
        let (width, height) = image.dimensions();
        let (blurred_width, blurred_height) = dimensions(&blurred);
        if blurred_width != width || blurred_height != height {
            return Err(Error::ImageBufferCreateError);
        }
        image.extend(blurred);
        Ok(())
    }
}

} // verus!
