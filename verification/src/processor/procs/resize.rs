//! Scaling to a requested box.

use vstd::prelude::*;

use crate::processor::Processor;
use crate::processor::error::Error;
use crate::processor::img::Image;
use crate::processor::img::ImageView;
use crate::processor::raster::can_resize;
use crate::processor::raster::product;
use crate::processor::raster::resizable;
use crate::processor::raster::resize_triangle;

verus! {

/// `a * b / c`, rounded down.
pub open spec fn scaled(a: nat, b: nat, c: nat) -> nat {
    (a * b / c) as nat
}

/// Whether the size that keeps the proportions of a picture of
/// `actual_width` by `actual_height` pixels inside the box of `width` by
/// `height` can be computed: no division is by zero, and both sides fit in 32
/// bits. A side of the box that is 0 is left open.
pub open spec fn fits(width: nat, height: nat, actual_width: nat, actual_height: nat) -> bool {
    if height == 0 {
        actual_width > 0 && scaled(width, actual_height, actual_width) <= u32::MAX
    } else if width == 0 {
        actual_height > 0 && scaled(height, actual_width, actual_height) <= u32::MAX
    } else {
        actual_width > 0 && (scaled(width, actual_height, actual_width) > height
            ==> actual_height > 0)
    }
}

/// The size that keeps the proportions of a picture of `actual_width` by
/// `actual_height` pixels inside the box of `width` by `height`. A side of
/// the box that is 0 is left open: the other side is taken as it is. With
/// both sides given, the width is taken as it is if the height that goes
/// with it stays inside the box, and else the height.
pub open spec fn fitted(width: nat, height: nat, actual_width: nat, actual_height: nat) -> (
    nat,
    nat,
) {
    if height == 0 {
        (width, scaled(width, actual_height, actual_width))
    } else if width == 0 {
        (scaled(height, actual_width, actual_height), height)
    } else {
        let h = scaled(width, actual_height, actual_width);
        if h <= height {
            (width, h)
        } else {
            (scaled(height, actual_width, actual_height), height)
        }
    }
}

/// `scaled(a, b, c)` is the one number `q` with `q * c <= a * b < (q + 1) * c`.
pub proof fn lemma_scaled_bounds(a: nat, b: nat, c: nat)
    requires
        c > 0,
    ensures
        scaled(a, b, c) * c <= a * b < (scaled(a, b, c) + 1) * c,
{
    let n: int = (a * b) as int;
    let d: int = c as int;
    assert(n >= 0) by (nonlinear_arith)
        requires
            n == a * b,
            a >= 0,
            b >= 0,
    ;
    assert((n / d) * d <= n < (n / d + 1) * d && n / d >= 0) by (nonlinear_arith)
        requires
            d > 0,
            n >= 0,
    ;
}

/// The fitted size lies inside the box, on every side that the box gives,
/// and one side of the box is met exactly. The other side is the one that
/// keeps the proportions of the picture, rounded down to whole pixels.
pub proof fn lemma_fitted_keeps_proportions(
    width: nat,
    height: nat,
    actual_width: nat,
    actual_height: nat,
)
    requires
        width > 0 || height > 0,
        actual_width > 0,
        actual_height > 0,
    ensures
        ({
            let (w, h) = fitted(width, height, actual_width, actual_height);
            &&& width > 0 ==> w <= width
            &&& height > 0 ==> h <= height
            &&& {
                ||| w == width && h * actual_width <= w * actual_height < (h + 1) * actual_width
                ||| h == height && w * actual_height <= h * actual_width < (w + 1)
                    * actual_height
            }
        }),
{
    lemma_scaled_bounds(width, actual_height, actual_width);
    lemma_scaled_bounds(height, actual_width, actual_height);
    if width > 0 && height > 0 {
        let h = scaled(width, actual_height, actual_width);
        let w = scaled(height, actual_width, actual_height);
        if h > height {
            assert(w < width) by (nonlinear_arith)
                requires
                    h * actual_width <= width * actual_height,
                    w * actual_height <= height * actual_width,
                    h >= height + 1,
                    actual_width > 0,
                    actual_height > 0,
                    width > 0,
            ;
        }
    }
}

/// `a * b / c`, rounded down.
fn scale(a: u32, b: u32, c: u32) -> (q: u32)
    requires
        c > 0,
        scaled(a as nat, b as nat, c as nat) <= u32::MAX,
    ensures
        q == scaled(a as nat, b as nat, c as nat),
{
    let product: u64 = product(a, b);
    (product / (c as u64)) as u32
}

/// Whether `a * b / c` fits in 32 bits.
fn scale_fits(a: u32, b: u32, c: u32) -> (ok: bool)
    requires
        c > 0,
    ensures
        ok == (scaled(a as nat, b as nat, c as nat) <= u32::MAX),
{
    let product: u64 = product(a, b);
    product / (c as u64) <= 0xFFFF_FFFF
}

/// The size that a picture is stretched to for a box of `width` by `height`:
/// the box itself. A box with a side left open has no size to stretch to; the
/// picture then ends on a single pixel.
pub open spec fn stretched(width: nat, height: nat) -> (nat, nat) {
    if width == 0 || height == 0 {
        (1, 1)
    } else {
        (width, height)
    }
}

/// The stage that scales the picture to a requested box.
pub struct Resize {
    /// The width of the box; 0 leaves the width open.
    pub width: u32,
    /// The height of the box; 0 leaves the height open.
    pub height: u32,
    /// Whether the picture keeps its proportions. If not, it is stretched to
    /// the box, whose sides must both be given for that.
    pub maintain_aspect_ratio: bool,
}

impl Resize {
    /// The size that the stage brings a picture of `actual_width` by
    /// `actual_height` pixels to.
    pub open spec fn target(&self, actual_width: nat, actual_height: nat) -> (nat, nat) {
        if self.maintain_aspect_ratio {
            fitted(self.width as nat, self.height as nat, actual_width, actual_height)
        } else {
            stretched(self.width as nat, self.height as nat)
        }
    }

    /// The size that the stage stretches a picture to where it does not keep
    /// the proportions.
    pub fn stretch(&self) -> (size: (u32, u32))
        ensures
            (size.0 as nat, size.1 as nat) == stretched(self.width as nat, self.height as nat),
    {
        if self.width == 0 || self.height == 0 {
            (1, 1)
        } else {
            (self.width, self.height)
        }
    }

    /// Whether the stage resamples a picture of the given size. A picture
    /// that keeps its proportions and has the target size already is left as
    /// it is.
    pub open spec fn resamples(&self, actual_width: nat, actual_height: nat) -> bool {
        !self.maintain_aspect_ratio || self.target(actual_width, actual_height) != (
            actual_width,
            actual_height,
        )
    }

    /// Whether the stage can be run on a picture of the given size.
    pub open spec fn accepts_size(&self, actual_width: nat, actual_height: nat) -> bool {
        &&& self.maintain_aspect_ratio ==> fits(
            self.width as nat,
            self.height as nat,
            actual_width,
            actual_height,
        )
        &&& self.resamples(actual_width, actual_height) ==> resizable(
            actual_width,
            actual_height,
            self.target(actual_width, actual_height).0,
            self.target(actual_width, actual_height).1,
        )
    }

    /// The image that the stage leaves: the picture at the target size, in
    /// its colour model, and the source encoding as it was.
    pub open spec fn output(&self, before: ImageView) -> ImageView {
        let (width, height) = self.target(before.raster.width, before.raster.height);
        if self.resamples(before.raster.width, before.raster.height) {
            ImageView { raster: before.raster.resized(width, height), format: before.format }
        } else {
            before
        }
    }

    /// Whether the size that keeps the proportions of a picture of the given
    /// size can be computed.
    pub fn can_fit(&self, actual_width: u32, actual_height: u32) -> (can: bool)
        ensures
            can == fits(
                self.width as nat,
                self.height as nat,
                actual_width as nat,
                actual_height as nat,
            ),
    {
        if self.height == 0 {
            actual_width > 0 && scale_fits(self.width, actual_height, actual_width)
        } else if self.width == 0 {
            actual_height > 0 && scale_fits(self.height, actual_width, actual_height)
        } else {
            if actual_width == 0 {
                false
            } else if actual_height > 0 {
                true
            } else {
                assert(self.width as nat * 0nat == 0) by (nonlinear_arith);
                true
            }
        }
    }

    /// The size that keeps the proportions of a picture of the given size
    /// inside the box.
    pub fn fit(&self, actual_width: u32, actual_height: u32) -> (size: (u32, u32))
        requires
            fits(self.width as nat, self.height as nat, actual_width as nat, actual_height as nat),
        ensures
            (size.0 as nat, size.1 as nat) == fitted(
                self.width as nat,
                self.height as nat,
                actual_width as nat,
                actual_height as nat,
            ),
    {
        if self.height == 0 {
            (self.width, scale(self.width, actual_height, actual_width))
        } else if self.width == 0 {
            (scale(self.height, actual_width, actual_height), self.height)
        } else {
            proof {
                lemma_scaled_bounds(
                    self.width as nat,
                    actual_height as nat,
                    actual_width as nat,
                );
            }
            let product: u64 = product(self.width, actual_height);
            let h: u64 = product / (actual_width as u64);
            if h <= self.height as u64 {
                (self.width, h as u32)
            } else {
                proof {
                    lemma_fitted_keeps_proportions(
                        self.width as nat,
                        self.height as nat,
                        actual_width as nat,
                        actual_height as nat,
                    );
                }
                (scale(self.height, actual_width, actual_height), self.height)
            }
        }
    }

    /// The size that keeps the picture's proportions inside the box.
    pub fn resize_width_height(&self, image: &Image) -> (size: (u32, u32))
        requires
            fits(self.width as nat, self.height as nat, image@.raster.width, image@.raster.height),
        ensures
            (size.0 as nat, size.1 as nat) == fitted(
                self.width as nat,
                self.height as nat,
                image@.raster.width,
                image@.raster.height,
            ),
    {
        let (actual_width, actual_height) = image.dimensions();
        self.fit(actual_width, actual_height)
    }

    /// Whether the stage can be run on a picture of the given size.
    pub fn can_process_size(&self, actual_width: u32, actual_height: u32) -> (can: bool)
        ensures
            can == self.accepts_size(actual_width as nat, actual_height as nat),
    {
        if self.maintain_aspect_ratio {
            if !self.can_fit(actual_width, actual_height) {
                return false;
            }
            let (width, height) = self.fit(actual_width, actual_height);
            if width != actual_width || height != actual_height {
                can_resize(actual_width, actual_height, width, height)
            } else {
                true
            }
        } else {
            let (width, height) = self.stretch();
            can_resize(actual_width, actual_height, width, height)
        }
    }

    /// Whether the stage can be run on the image.
    pub fn can_process(&self, image: &Image) -> (can: bool)
        ensures
            can == self.accepts(image@),
    {
        let (actual_width, actual_height) = image.dimensions();
        self.can_process_size(actual_width, actual_height)
    }

    /// Scales the picture so that it keeps its proportions and fits the box.
    /// A picture that has that size already is left as it is.
    pub fn resize(&self, image: &mut Image) -> (result: Result<(), Error>)
        requires
            self.maintain_aspect_ratio,
            self.accepts(old(image)@),
        ensures
            result is Ok,
            final(image)@ == self.output(old(image)@),
            !self.resamples(old(image)@.raster.width, old(image)@.raster.height) ==> *final(image)
                == *old(image),
    {
        let (actual_width, actual_height) = image.dimensions();
        let (width, height) = self.resize_width_height(image);
        if width != actual_width || height != actual_height {
            let resized = resize_triangle(&image.inner, width, height);
            image.extend(resized);
        }
        Ok(())
    }
}

impl Processor for Resize {
    open spec fn spec_name(&self) -> Option<Seq<char>> {
        Some("Resize"@)
    }

    open spec fn accepts(&self, image: ImageView) -> bool {
        self.accepts_size(image.raster.width, image.raster.height)
    }

    open spec fn transforms(
        &self,
        before: ImageView,
        after: ImageView,
        result: Result<(), Error>,
    ) -> bool {
        result is Ok && after == self.output(before)
    }

    fn name(&self) -> (name: &'static str) {
        "Resize"
    }

    fn process(&self, image: &mut Image) -> (result: Result<(), Error>)
        ensures
            result is Ok,
            final(image)@ == self.output(old(image)@),
            !self.resamples(old(image)@.raster.width, old(image)@.raster.height) ==> *final(image)
                == *old(image),
            final(image)@.raster.color == old(image)@.raster.color,
            final(image)@.format == old(image)@.format,
            !self.maintain_aspect_ratio ==> {
                &&& final(image)@.raster.width == stretched(
                    self.width as nat,
                    self.height as nat,
                ).0
                &&& final(image)@.raster.height == stretched(
                    self.width as nat,
                    self.height as nat,
                ).1
            },
            self.maintain_aspect_ratio && (self.width > 0 || self.height > 0) && old(
                image,
            )@.raster.width > 0 && old(image)@.raster.height > 0 ==> {
                let after = final(image)@.raster;
                let actual = old(image)@.raster;
                &&& self.width > 0 ==> after.width <= self.width
                &&& self.height > 0 ==> after.height <= self.height
                &&& {
                    ||| after.width == self.width && after.height * actual.width <= after.width
                        * actual.height < (after.height + 1) * actual.width
                    ||| after.height == self.height && after.width * actual.height
                        <= after.height * actual.width < (after.width + 1) * actual.height
                }
            },
    {
        proof {
            if self.maintain_aspect_ratio && (self.width > 0 || self.height > 0)
                && image@.raster.width > 0 && image@.raster.height > 0 {
                lemma_resize_stays_in_the_box(*self, image@);
            }
        }
        if self.maintain_aspect_ratio {
            self.resize(image)
        } else {
            let (width, height) = self.stretch();
            let resized = resize_triangle(&image.inner, width, height);
            image.extend(resized);
            Ok(())
        }
    }
}

/// A picture that is not empty and is scaled with its proportions kept stays
/// inside the box, on every side that the box gives, and meets one side of it
/// exactly. Its other side is the one that keeps the proportions, rounded
/// down to whole pixels.
pub proof fn lemma_resize_stays_in_the_box(stage: Resize, before: ImageView)
    requires
        stage.maintain_aspect_ratio,
        stage.width > 0 || stage.height > 0,
        before.raster.width > 0,
        before.raster.height > 0,
    ensures
        ({
            let after = stage.output(before).raster;
            let actual = before.raster;
            &&& stage.width > 0 ==> after.width <= stage.width
            &&& stage.height > 0 ==> after.height <= stage.height
            &&& {
                ||| after.width == stage.width && after.height * actual.width <= after.width
                    * actual.height < (after.height + 1) * actual.width
                ||| after.height == stage.height && after.width * actual.height <= after.height
                    * actual.width < (after.width + 1) * actual.height
            }
        }),
{
    lemma_fitted_keeps_proportions(
        stage.width as nat,
        stage.height as nat,
        before.raster.width,
        before.raster.height,
    );
}

} // verus!
