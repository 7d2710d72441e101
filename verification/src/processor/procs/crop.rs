//! Cutting to a requested box.

use vstd::prelude::*;

use crate::handler::query::crop::Crop as QueryCrop;
use crate::processor::Processor;
use crate::processor::error::Error;
use crate::processor::img::Image;
use crate::processor::img::ImageView;
use crate::processor::procs::resize::Resize;
use crate::processor::procs::resize::lemma_scaled_bounds;
use crate::processor::procs::resize::scaled;
use crate::processor::raster::can_resize;
use crate::processor::raster::crop;
use crate::processor::raster::product;
use crate::processor::raster::resizable;
use crate::processor::raster::resize_triangle;

verus! {

/// The position in the picture that a crop holds on to.
#[derive(Debug, PartialEq, Eq, Clone, Copy, Structural)]
pub enum CropPoint {
    TopLeft,
    Top,
    TopRight,
    Left,
    Center,
    Right,
    BottomLeft,
    Bottom,
    BottomRight,
    /// The top left corner of the window, in pixels.
    Custom(u32, u32),
}

impl CropPoint {
    /// The position that a request's anchor stands for: the anchor itself,
    /// or the centre where the request names none.
    pub open spec fn of(anchor: Option<QueryCrop>) -> CropPoint {
        match anchor {
            Some(QueryCrop::TopLeft) => CropPoint::TopLeft,
            Some(QueryCrop::Top) => CropPoint::Top,
            Some(QueryCrop::TopRight) => CropPoint::TopRight,
            Some(QueryCrop::Left) => CropPoint::Left,
            Some(QueryCrop::Center) => CropPoint::Center,
            Some(QueryCrop::Right) => CropPoint::Right,
            Some(QueryCrop::BottomLeft) => CropPoint::BottomLeft,
            Some(QueryCrop::Bottom) => CropPoint::Bottom,
            Some(QueryCrop::BottomRight) => CropPoint::BottomRight,
            None => CropPoint::Center,
        }
    }
}

impl vstd::std_specs::convert::FromSpecImpl<Option<QueryCrop>> for CropPoint {
    open spec fn obeys_from_spec() -> bool {
        true
    }

    open spec fn from_spec(anchor: Option<QueryCrop>) -> CropPoint {
        CropPoint::of(anchor)
    }
}

impl From<Option<QueryCrop>> for CropPoint {
    fn from(anchor: Option<QueryCrop>) -> (point: CropPoint) {
        match anchor {
            Some(QueryCrop::TopLeft) => CropPoint::TopLeft,
            Some(QueryCrop::Top) => CropPoint::Top,
            Some(QueryCrop::TopRight) => CropPoint::TopRight,
            Some(QueryCrop::Left) => CropPoint::Left,
            Some(QueryCrop::Center) => CropPoint::Center,
            Some(QueryCrop::Right) => CropPoint::Right,
            Some(QueryCrop::BottomLeft) => CropPoint::BottomLeft,
            Some(QueryCrop::Bottom) => CropPoint::Bottom,
            Some(QueryCrop::BottomRight) => CropPoint::BottomRight,
            None => CropPoint::Center,
        }
    }
}

/// The size to which a picture of `actual_width` by `actual_height` pixels is
/// scaled before a window of `width` by `height` is cut from it. It covers
/// the window and meets one side of it: the side along which the picture has
/// to grow more, so that the scaled picture is the larger of the two that
/// meet a side. The other side keeps the proportions of the picture, rounded
/// down to whole pixels.
pub open spec fn covering(width: nat, height: nat, actual_width: nat, actual_height: nat) -> (
    nat,
    nat,
) {
    if width * actual_height > height * actual_width {
        (width, scaled(width, actual_height, actual_width))
    } else {
        (scaled(height, actual_width, actual_height), height)
    }
}

/// The covering size covers the window on both sides and meets one side of it
/// exactly; its other side is the one that keeps the proportions of the
/// picture, rounded down to whole pixels.
pub proof fn lemma_covering_covers(width: nat, height: nat, actual_width: nat, actual_height: nat)
    requires
        actual_width > 0,
        actual_height > 0,
    ensures
        ({
            let (w, h) = covering(width, height, actual_width, actual_height);
            &&& w >= width
            &&& h >= height
            &&& {
                ||| w == width && h * actual_width <= w * actual_height < (h + 1) * actual_width
                ||| h == height && w * actual_height <= h * actual_width < (w + 1)
                    * actual_height
            }
        }),
{
    lemma_scaled_bounds(width, actual_height, actual_width);
    lemma_scaled_bounds(height, actual_width, actual_height);
    let h = scaled(width, actual_height, actual_width);
    let w = scaled(height, actual_width, actual_height);
    if width * actual_height > height * actual_width {
        assert(h >= height) by (nonlinear_arith)
            requires
                width * actual_height > height * actual_width,
                width * actual_height < (h + 1) * actual_width,
                actual_width > 0,
                h >= 0,
                height >= 0,
        ;
    } else {
        assert(w >= width) by (nonlinear_arith)
            requires
                width * actual_height <= height * actual_width,
                height * actual_width < (w + 1) * actual_height,
                actual_height > 0,
                w >= 0,
                width >= 0,
        ;
    }
}

/// The top left corner of a window of `width` by `height` pixels in a
/// picture of `w` by `h` pixels, held by `point`. A corner touches two edges
/// of the picture, the middle of a side touches that side and is centred
/// along it, the centre is centred both ways, and a custom point is the
/// corner itself.
pub open spec fn corner(point: CropPoint, width: nat, height: nat, w: nat, h: nat) -> (nat, nat)
    recommends
        !(point is Custom) ==> width <= w && height <= h,
{
    let right = (w - width) as nat;
    let bottom = (h - height) as nat;
    match point {
        CropPoint::TopLeft => (0, 0),
        CropPoint::Top => (right / 2, 0),
        CropPoint::TopRight => (right, 0),
        CropPoint::Left => (0, bottom / 2),
        CropPoint::Center => (right / 2, bottom / 2),
        CropPoint::Right => (right, bottom / 2),
        CropPoint::BottomLeft => (0, bottom),
        CropPoint::Bottom => (right / 2, bottom),
        CropPoint::BottomRight => (right, bottom),
        CropPoint::Custom(x, y) => (x as nat, y as nat),
    }
}

/// The stage that scales the picture until it covers the requested box and
/// then cuts the box out of it.
pub struct Crop {
    /// What the window holds on to.
    pub point: CropPoint,
    /// The width of the box; 0 leaves the width open.
    pub width: u32,
    /// The height of the box; 0 leaves the height open.
    pub height: u32,
}

impl Crop {
    /// Whether the stage cuts: both sides of the box are given.
    pub open spec fn cuts(&self) -> bool {
        self.width > 0 && self.height > 0
    }

    /// The stage that takes this one's place where one side of the box is
    /// left open: it scales to the side that is given.
    pub open spec fn scaling(&self) -> Resize {
        Resize { width: self.width, height: self.height, maintain_aspect_ratio: true }
    }

    /// Whether the size that covers the box can be computed for a picture of
    /// the given size: the picture is not empty, and the covering size fits
    /// in 32 bits a side.
    pub open spec fn can_cover(&self, actual_width: nat, actual_height: nat) -> bool {
        let (w, h) = covering(self.width as nat, self.height as nat, actual_width, actual_height);
        &&& actual_width > 0
        &&& actual_height > 0
        &&& w <= u32::MAX
        &&& h <= u32::MAX
    }

    /// Whether a window can be cut from a picture of the given size: the
    /// covering size can be computed, and the picture can be brought to it.
    pub open spec fn can_cut(&self, actual_width: nat, actual_height: nat) -> bool {
        let (w, h) = covering(self.width as nat, self.height as nat, actual_width, actual_height);
        &&& self.can_cover(actual_width, actual_height)
        &&& resizable(actual_width, actual_height, w, h)
    }

    /// Whether the stage can be run on a picture of the given size.
    pub open spec fn accepts_size(&self, actual_width: nat, actual_height: nat) -> bool {
        if self.cuts() {
            self.can_cut(actual_width, actual_height)
        } else if self.width == 0 && self.height == 0 {
            true
        } else {
            self.scaling().accepts_size(actual_width, actual_height)
        }
    }

    /// The image that the stage leaves. With both sides of the box given,
    /// the picture is stretched to the size that covers the box, and the
    /// window is cut from it: at a named point it lies inside the scaled
    /// picture and has the size of the box, at a custom point it is cut down
    /// to what the scaled picture holds of it. With one side given, the picture is scaled to
    /// that side. With none, the image stays as it is.
    pub open spec fn output(&self, before: ImageView) -> ImageView {
        if self.cuts() {
            let (w, h) = covering(
                self.width as nat,
                self.height as nat,
                before.raster.width,
                before.raster.height,
            );
            let (x, y) = corner(self.point, self.width as nat, self.height as nat, w, h);
            ImageView {
                raster: before.raster.resized(w, h).cropped(
                    x,
                    y,
                    self.width as nat,
                    self.height as nat,
                ),
                format: before.format,
            }
        } else if self.width == 0 && self.height == 0 {
            before
        } else {
            self.scaling().output(before)
        }
    }

    /// The size to which the picture is scaled before the window is cut. It
    /// covers the box and meets one side of it.
    pub fn resize_width_height_for_crop(&self, image: &Image) -> (size: (u32, u32))
        requires
            self.cuts(),
            self.can_cover(image@.raster.width, image@.raster.height),
        ensures
            (size.0 as nat, size.1 as nat) == covering(
                self.width as nat,
                self.height as nat,
                image@.raster.width,
                image@.raster.height,
            ),
            size.0 >= self.width,
            size.1 >= self.height,
            size.0 == self.width || size.1 == self.height,
    {
        let (actual_width, actual_height) = image.dimensions();
        proof {
            lemma_covering_covers(
                self.width as nat,
                self.height as nat,
                actual_width as nat,
                actual_height as nat,
            );
        }
        let (w, h) = cover(self.width, self.height, actual_width, actual_height);
        (w as u32, h as u32)
    }

    /// Whether the size that covers the box can be computed for the picture.
    pub fn can_cover_size(&self, actual_width: u32, actual_height: u32) -> (can: bool)
        ensures
            can == self.can_cover(actual_width as nat, actual_height as nat),
    {
        if actual_width == 0 || actual_height == 0 {
            return false;
        }
        let (w, h) = cover(self.width, self.height, actual_width, actual_height);
        w <= 0xFFFF_FFFF && h <= 0xFFFF_FFFF
    }

    /// The top left corner of the window in a picture of `w` by `h` pixels.
    pub fn start_point_for_crop(&self, w: u32, h: u32) -> (start: (u32, u32))
        requires
            !(self.point is Custom) ==> self.width <= w && self.height <= h,
        ensures
            (start.0 as nat, start.1 as nat) == corner(
                self.point,
                self.width as nat,
                self.height as nat,
                w as nat,
                h as nat,
            ),
    {
        if let CropPoint::Custom(x, y) = self.point {
            return (x, y);
        }
        let (x, y) = ((w - self.width) / 2, (h - self.height) / 2);
        match self.point {
            CropPoint::TopLeft => (0, 0),
            CropPoint::Top => (x, 0),
            CropPoint::TopRight => (w - self.width, 0),
            CropPoint::Left => (0, y),
            CropPoint::Center => (x, y),
            CropPoint::Right => (w - self.width, y),
            CropPoint::BottomLeft => (0, h - self.height),
            CropPoint::Bottom => (x, h - self.height),
            CropPoint::BottomRight => (w - self.width, h - self.height),
            CropPoint::Custom(x, y) => (x, y),
        }
    }

    /// Whether the stage can be run on a picture of the given size.
    pub fn can_process_size(&self, actual_width: u32, actual_height: u32) -> (can: bool)
        ensures
            can == self.accepts_size(actual_width as nat, actual_height as nat),
    {
        if self.width == 0 || self.height == 0 {
            if self.width == 0 && self.height == 0 {
                return true;
            }
            return Resize {
                width: self.width,
                height: self.height,
                maintain_aspect_ratio: true,
            }.can_process_size(actual_width, actual_height);
        }
        if actual_width == 0 || actual_height == 0 {
            return false;
        }
        let (w, h) = cover(self.width, self.height, actual_width, actual_height);
        if w > 0xFFFF_FFFF || h > 0xFFFF_FFFF {
            return false;
        }
        can_resize(actual_width, actual_height, w as u32, h as u32)
    }

    /// Whether the stage can be run on the image.
    pub fn can_process(&self, image: &Image) -> (can: bool)
        ensures
            can == self.accepts(image@),
    {
        let (actual_width, actual_height) = image.dimensions();
        self.can_process_size(actual_width, actual_height)
    }
}

/// The size that covers a window of `width` by `height` pixels, for a picture
/// that is not empty.
fn cover(width: u32, height: u32, actual_width: u32, actual_height: u32) -> (size: (u64, u64))
    requires
        actual_width > 0,
        actual_height > 0,
    ensures
        (size.0 as nat, size.1 as nat) == covering(
            width as nat,
            height as nat,
            actual_width as nat,
            actual_height as nat,
        ),
{
    let across: u64 = product(width, actual_height);
    let down: u64 = product(height, actual_width);
    if across > down {
        (width as u64, across / (actual_width as u64))
    } else {
        (down / (actual_height as u64), height as u64)
    }
}

impl Processor for Crop {
    open spec fn spec_name(&self) -> Option<Seq<char>> {
        Some("Crop"@)
    }

    open spec fn accepts(&self, image: ImageView) -> bool {
        self.accepts_size(image.raster.width, image.raster.height)
    }

    open spec fn transforms(
        &self,
        before: ImageView,
        after: ImageView,
        result: Result<(), Error>,
    ) -> bool {
        result is Ok && after == self.output(before)
    }

    fn name(&self) -> (name: &'static str) {
        "Crop"
    }

    fn process(&self, image: &mut Image) -> (result: Result<(), Error>)
        ensures
            result is Ok,
            final(image)@ == self.output(old(image)@),
            self.width == 0 && self.height == 0 ==> *final(image) == *old(image),
            self.cuts() && !(self.point is Custom) ==> {
                &&& final(image)@.raster.width == self.width
                &&& final(image)@.raster.height == self.height
            },
            self.cuts() ==> {
                &&& final(image)@.raster.width <= self.width
                &&& final(image)@.raster.height <= self.height
            },
    {
        proof {
            if self.cuts() {
                lemma_covering_covers(
                    self.width as nat,
                    self.height as nat,
                    image@.raster.width,
                    image@.raster.height,
                );
            }
        }
        if self.width == 0 || self.height == 0 {
            if self.width == 0 && self.height == 0 {
                return Ok(());
            }
            return Resize {
                width: self.width,
                height: self.height,
                maintain_aspect_ratio: true,
            }.process(image);
        }
        let (w, h) = self.resize_width_height_for_crop(image);
        let covered = resize_triangle(&image.inner, w, h);
        let (x, y) = self.start_point_for_crop(w, h);
        let cut = crop(&covered, x, y, self.width, self.height);
        image.extend(cut);
        Ok(())
    }
}

/// A window that is held by one of the nine named positions has exactly the
/// size of the box, whatever the size of the picture, if the picture is not
/// empty.
pub proof fn lemma_crop_yields_the_box(stage: Crop, before: ImageView)
    requires
        stage.cuts(),
        !(stage.point is Custom),
        before.raster.width > 0,
        before.raster.height > 0,
    ensures
        stage.output(before).raster.width == stage.width,
        stage.output(before).raster.height == stage.height,
        stage.output(before).raster.color == before.raster.color,
        stage.output(before).format == before.format,
{
    lemma_covering_covers(
        stage.width as nat,
        stage.height as nat,
        before.raster.width,
        before.raster.height,
    );
}

/// A window at a custom point has the size of the box if it lies inside the
/// scaled picture, as it does at the point `(0, 0)`, and is cut down to the
/// part inside it if not.
pub proof fn lemma_custom_crop_is_cut_down(stage: Crop, before: ImageView)
    requires
        stage.cuts(),
        stage.point is Custom,
        before.raster.width > 0,
        before.raster.height > 0,
    ensures
        ({
            let (w, h) = covering(
                stage.width as nat,
                stage.height as nat,
                before.raster.width,
                before.raster.height,
            );
            let (x, y) = (stage.point->Custom_0 as nat, stage.point->Custom_1 as nat);
            &&& stage.output(before).raster.width <= stage.width
            &&& stage.output(before).raster.height <= stage.height
            &&& w >= stage.width
            &&& h >= stage.height
            &&& x + stage.width <= w ==> stage.output(before).raster.width == stage.width
            &&& y + stage.height <= h ==> stage.output(before).raster.height == stage.height
        }),
{
    lemma_covering_covers(
        stage.width as nat,
        stage.height as nat,
        before.raster.width,
        before.raster.height,
    );
}

} // verus!
