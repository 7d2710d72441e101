//! The contracts' model of a decoded picture, and the calls into the `image`
//! crate that the stages are built from.

use image::ColorType;
use image::DynamicImage;
use image::GenericImageView;
use image::imageops::FilterType;
use vstd::prelude::*;

verus! {

#[verifier::external_type_specification]
#[verifier::external_body]
pub struct ExDynamicImage(image::DynamicImage);

#[verifier::external_type_specification]
#[verifier::external_body]
pub struct ExColorType(image::ColorType);

/// The number of pixel columns of a picture: what `DynamicImage::width` returns.
pub uninterp spec fn image_width(img: DynamicImage) -> nat;

/// The number of pixel rows of a picture: what `DynamicImage::height` returns.
pub uninterp spec fn image_height(img: DynamicImage) -> nat;

/// The colour model of a picture: what `DynamicImage::color` returns.
pub uninterp spec fn image_color(img: DynamicImage) -> ColorType;

/// The pixels of a picture: under the key `(x, y)` the samples of the pixel in
/// column `x` of row `y`, in the order of its channels, each sample written as
/// its bytes from the lowest to the highest.
pub uninterp spec fn image_pixels(img: DynamicImage) -> Map<(int, int), Seq<u8>>;

/// The pixels that `DynamicImage::resize_exact` computes with the triangle
/// filter from a picture and the size asked for.
pub uninterp spec fn resampled(source: Raster, width: nat, height: nat) -> Map<
    (int, int),
    Seq<u8>,
>;

/// The picture that `DynamicImage::grayscale` computes from a picture.
pub uninterp spec fn desaturated(source: Raster) -> Raster;

/// The largest side, in pixels, of a picture that may be resampled. Sample
/// positions are computed in single precision; up to this size they stay
/// within a fraction of a pixel of the exact ones. Far beyond it a position
/// can miss every pixel of the source, the sample is left without any weight,
/// and the resampling panics: it does so for a picture of 8388810 by 1
/// pixels of 8 bits that is stretched to 8687392 by 1.
pub const MAX_RESAMPLE_SIDE: u32 = 0x10_0000;

/// The largest number of bytes that one pixel takes, in any colour model.
pub const MAX_PIXEL_BYTES: u32 = 16;

/// A picture as the contracts see it: its size, its colour model and its pixels.
pub ghost struct Raster {
    pub width: nat,
    pub height: nat,
    pub color: ColorType,
    pub pixels: Map<(int, int), Seq<u8>>,
}

/// The model of a decoded picture.
pub open spec fn raster(img: DynamicImage) -> Raster {
    Raster {
        width: image_width(img),
        height: image_height(img),
        color: image_color(img),
        pixels: image_pixels(img),
    }
}

/// Whether a pixel buffer of the given size can be allocated at all: at the
/// widest colour model it must not take more bytes than a vector may hold.
pub open spec fn allocatable(width: nat, height: nat) -> bool {
    MAX_PIXEL_BYTES * width * height <= isize::MAX
}

/// Whether a picture of `width` by `height` pixels can be resampled to
/// `new_width` by `new_height`: the source is not too large for the sample
/// positions to be computed, and the buffers that the resampling fills can be
/// allocated: one as wide as the source and one as wide as the result, both
/// as high as the result.
pub open spec fn resizable(width: nat, height: nat, new_width: nat, new_height: nat) -> bool {
    &&& width <= MAX_RESAMPLE_SIDE
    &&& height <= MAX_RESAMPLE_SIDE
    &&& allocatable(width, new_height)
    &&& allocatable(new_width, new_height)
}

impl Raster {
    /// A picture of the given size and of this one's colour model, whose pixel
    /// at `p` is this picture's pixel at `source(p)`.
    pub open spec fn rearranged(
        self,
        width: nat,
        height: nat,
        source: spec_fn((int, int)) -> (int, int),
    ) -> Raster {
        Raster {
            width,
            height,
            color: self.color,
            pixels: Map::new(
                |p: (int, int)| 0 <= p.0 < width && 0 <= p.1 < height,
                |p: (int, int)| self.pixels[source(p)],
            ),
        }
    }

    /// The picture mirrored left to right.
    pub open spec fn flipped_horizontally(self) -> Raster {
        self.rearranged(self.width, self.height, |p: (int, int)| (self.width - 1 - p.0, p.1))
    }

    /// The picture mirrored top to bottom.
    pub open spec fn flipped_vertically(self) -> Raster {
        self.rearranged(self.width, self.height, |p: (int, int)| (p.0, self.height - 1 - p.1))
    }

    /// The picture turned a quarter clockwise: width and height change places.
    pub open spec fn rotated_90(self) -> Raster {
        self.rearranged(self.height, self.width, |p: (int, int)| (p.1, self.height - 1 - p.0))
    }

    /// The picture turned upside down.
    pub open spec fn rotated_180(self) -> Raster {
        self.rearranged(
            self.width,
            self.height,
            |p: (int, int)| (self.width - 1 - p.0, self.height - 1 - p.1),
        )
    }

    /// The picture turned three quarters clockwise: width and height change places.
    pub open spec fn rotated_270(self) -> Raster {
        self.rearranged(self.height, self.width, |p: (int, int)| (self.width - 1 - p.1, p.0))
    }

    /// The picture stretched to exactly `width` by `height` pixels.
    pub open spec fn resized(self, width: nat, height: nat) -> Raster {
        Raster { width, height, color: self.color, pixels: resampled(self, width, height) }
    }

    /// The column at which a window asked for at column `x` starts.
    pub open spec fn window_left(self, x: nat) -> nat {
        if x <= self.width { x } else { self.width }
    }

    /// The row at which a window asked for at row `y` starts.
    pub open spec fn window_top(self, y: nat) -> nat {
        if y <= self.height { y } else { self.height }
    }

    /// The width of a window asked for at column `x` with `width` columns: as
    /// much of it as lies inside the picture.
    pub open spec fn window_width(self, x: nat, width: nat) -> nat {
        let room = (self.width - self.window_left(x)) as nat;
        if width <= room { width } else { room }
    }

    /// The height of a window asked for at row `y` with `height` rows: as much
    /// of it as lies inside the picture.
    pub open spec fn window_height(self, y: nat, height: nat) -> nat {
        let room = (self.height - self.window_top(y)) as nat;
        if height <= room { height } else { room }
    }

    /// The part of the picture inside the window whose top left corner is
    /// asked for at `(x, y)` and whose size is asked for as `width` by `height`.
    pub open spec fn cropped(self, x: nat, y: nat, width: nat, height: nat) -> Raster {
        self.rearranged(
            self.window_width(x, width),
            self.window_height(y, height),
            |p: (int, int)| (p.0 + self.window_left(x), p.1 + self.window_top(y)),
        )
    }
}

/// `GenericImageView::dimensions` of a `DynamicImage`: its width and height.
#[verifier::external_body]
pub(crate) fn dimensions(img: &DynamicImage) -> (size: (u32, u32))
    ensures
        size.0 == image_width(*img),
        size.1 == image_height(*img),
{
    img.dimensions()
}

/// `DynamicImage::fliph`: a new picture of the same size and colour model in
/// which each row runs the other way round.
#[verifier::external_body]
pub(crate) fn flip_horizontal(img: &DynamicImage) -> (out: DynamicImage)
    ensures
        image_width(out) == image_width(*img),
        image_height(out) == image_height(*img),
        image_color(out) == image_color(*img),
        image_pixels(out) == raster(*img).flipped_horizontally().pixels,
{
    img.fliph()
}

/// `DynamicImage::flipv`: a new picture of the same size and colour model in
/// which each column runs the other way round.
#[verifier::external_body]
pub(crate) fn flip_vertical(img: &DynamicImage) -> (out: DynamicImage)
    ensures
        image_width(out) == image_width(*img),
        image_height(out) == image_height(*img),
        image_color(out) == image_color(*img),
        image_pixels(out) == raster(*img).flipped_vertically().pixels,
{
    img.flipv()
}

/// `DynamicImage::rotate90`: a new picture, as wide as the source is high and
/// as high as it is wide, whose pixel `(x, y)` is the source's pixel
/// `(y, height - 1 - x)`.
#[verifier::external_body]
pub(crate) fn rotate_90(img: &DynamicImage) -> (out: DynamicImage)
    ensures
        image_width(out) == image_height(*img),
        image_height(out) == image_width(*img),
        image_color(out) == image_color(*img),
        image_pixels(out) == raster(*img).rotated_90().pixels,
{
    img.rotate90()
}

/// `DynamicImage::rotate180`: a new picture of the same size whose pixel
/// `(x, y)` is the source's pixel `(width - 1 - x, height - 1 - y)`.
#[verifier::external_body]
pub(crate) fn rotate_180(img: &DynamicImage) -> (out: DynamicImage)
    ensures
        image_width(out) == image_width(*img),
        image_height(out) == image_height(*img),
        image_color(out) == image_color(*img),
        image_pixels(out) == raster(*img).rotated_180().pixels,
{
    img.rotate180()
}

/// `DynamicImage::rotate270`: a new picture, as wide as the source is high and
/// as high as it is wide, whose pixel `(x, y)` is the source's pixel
/// `(width - 1 - y, x)`.
#[verifier::external_body]
pub(crate) fn rotate_270(img: &DynamicImage) -> (out: DynamicImage)
    ensures
        image_width(out) == image_height(*img),
        image_height(out) == image_width(*img),
        image_color(out) == image_color(*img),
        image_pixels(out) == raster(*img).rotated_270().pixels,
{
    img.rotate270()
}

/// `DynamicImage::resize_exact` with the triangle filter: a new picture of
/// exactly the size asked for and of the source's colour model. It allocates
/// one buffer as wide as the source and one as wide as the result, both as
/// high as the result, and panics where such a buffer cannot be allocated.
/// It computes sample positions in single precision, which is why the source
/// must not be larger than [`MAX_RESAMPLE_SIDE`] a side.
#[verifier::external_body]
pub(crate) fn resize_triangle(img: &DynamicImage, width: u32, height: u32) -> (out: DynamicImage)
    requires
        resizable(image_width(*img), image_height(*img), width as nat, height as nat),
    ensures
        image_width(out) == width,
        image_height(out) == height,
        image_color(out) == image_color(*img),
        image_pixels(out) == resampled(raster(*img), width as nat, height as nat),
{
    img.resize_exact(width, height, FilterType::Triangle)
}

/// `DynamicImage::crop_imm`: a new picture that holds the part of the source
/// inside the window asked for. A corner outside the source is moved onto its
/// edge, and the window is cut down to what lies inside the source.
#[verifier::external_body]
pub(crate) fn crop(img: &DynamicImage, x: u32, y: u32, width: u32, height: u32) -> (out:
    DynamicImage)
    ensures
        image_width(out) == raster(*img).window_width(x as nat, width as nat),
        image_height(out) == raster(*img).window_height(y as nat, height as nat),
        image_color(out) == image_color(*img),
        image_pixels(out) == raster(*img).cropped(
            x as nat,
            y as nat,
            width as nat,
            height as nat,
        ).pixels,
{
    img.crop_imm(x, y, width, height)
}

/// `DynamicImage::grayscale`: a new picture of the same size in shades of
/// grey. Its colour model goes by the source's.
#[verifier::external_body]
pub(crate) fn grayscale(img: &DynamicImage) -> (out: DynamicImage)
    ensures
        image_width(out) == image_width(*img),
        image_height(out) == image_height(*img),
        image_color(out) == desaturated(raster(*img)).color,
        image_pixels(out) == desaturated(raster(*img)).pixels,
{
    img.grayscale()
}

/// Whether a pixel buffer of the given size can be allocated.
pub fn can_allocate(width: u32, height: u32) -> (can: bool)
    ensures
        can == allocatable(width as nat, height as nat),
{
    let pixels: u64 = product(width, height);
    let bytes: u128 = 16 * (pixels as u128);
    assert(bytes == MAX_PIXEL_BYTES * (width as nat) * (height as nat)) by (nonlinear_arith)
        requires
            bytes == 16 * (width * height),
            MAX_PIXEL_BYTES == 16,
    ;
    bytes <= isize::MAX as u128
}

/// `a * b`, which fits in 64 bits.
pub fn product(a: u32, b: u32) -> (product: u64)
    ensures
        product == a * b,
{
    assert(a * b <= 0xFFFF_FFFF * 0xFFFF_FFFF) by (nonlinear_arith)
        requires
            a <= 0xFFFF_FFFF,
            b <= 0xFFFF_FFFF,
    ;
    (a as u64) * (b as u64)
}

/// Whether a picture of `width` by `height` pixels can be resampled to
/// `new_width` by `new_height`.
pub fn can_resize(width: u32, height: u32, new_width: u32, new_height: u32) -> (can: bool)
    ensures
        can == resizable(width as nat, height as nat, new_width as nat, new_height as nat),
{
    width <= MAX_RESAMPLE_SIDE && height <= MAX_RESAMPLE_SIDE && can_allocate(width, new_height)
        && can_allocate(new_width, new_height)
}

} // verus!
