//! The image value that the stages work on.

use image::DynamicImage;
use image::ImageFormat;
use vstd::prelude::*;

use crate::processor::raster::Raster;
use crate::processor::raster::dimensions;
use crate::processor::raster::raster;

verus! {

#[verifier::external_type_specification]
#[verifier::external_body]
pub struct ExImageFormat(image::ImageFormat);

/// What an [`Image`] is to the contracts: the picture, and the encoding that
/// the picture was read from, where that is known.
pub ghost struct ImageView {
    pub raster: Raster,
    pub format: Option<ImageFormat>,
}

/// A decoded picture together with the encoding it was detected to come from.
pub struct Image {
    pub inner: DynamicImage,
    pub format: Option<ImageFormat>,
}

impl View for Image {
    type V = ImageView;

    open spec fn view(&self) -> ImageView {
        ImageView { raster: raster(self.inner), format: self.format }
    }
}

impl Image {
    /// An image whose source encoding is known.
    pub fn format(inner: DynamicImage, format: ImageFormat) -> (image: Self)
        ensures
            image.inner == inner,
            image.format == Some(format),
    {
        Self { inner, format: Some(format) }
    }

    /// An image whose source encoding is not known.
    pub fn new(inner: DynamicImage) -> (image: Self)
        ensures
            image.inner == inner,
            image.format is None,
    {
        Self { inner, format: None }
    }

    /// Replaces the picture and keeps the source encoding.
    pub fn extend(&mut self, image: DynamicImage)
        ensures
            final(self).inner == image,
            final(self).format == old(self).format,
    {
        self.inner = image;
    }

    /// Width and height of the picture, in pixels.
    pub fn dimensions(&self) -> (size: (u32, u32))
        ensures
            size.0 == self@.raster.width,
            size.1 == self@.raster.height,
    {
        dimensions(&self.inner)
    }
}

impl vstd::std_specs::convert::FromSpecImpl<DynamicImage> for Image {
    open spec fn obeys_from_spec() -> bool {
        true
    }

    open spec fn from_spec(inner: DynamicImage) -> Image {
        Image { inner, format: None }
    }
}

impl From<DynamicImage> for Image {
    /// An image whose source encoding is not known.
    fn from(inner: DynamicImage) -> (image: Image) {
        Self { inner, format: None }
    }
}

impl std::ops::Deref for Image {
    type Target = DynamicImage;

    fn deref(&self) -> (picture: &DynamicImage)
        ensures
            *picture == self.inner,
    {
        &self.inner
    }
}

} // verus!
