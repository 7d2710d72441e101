//! Mirroring.

use vstd::prelude::*;

use crate::handler::query::flip::Flip as QueryFlip;
use crate::processor::Processor;
use crate::processor::error::Error;
use crate::processor::img::Image;
use crate::processor::img::ImageView;
use crate::processor::raster::flip_horizontal;
use crate::processor::raster::flip_vertical;

verus! {

/// The axes along which a picture is mirrored.
#[derive(Debug, PartialEq, Eq, Clone, Copy, Structural)]
pub enum FlipType {
    /// Left to right.
    Horizontal,
    /// Top to bottom.
    Vertical,
    /// Left to right, then top to bottom.
    VerticalHorizontal,
}

impl FlipType {
    /// The axes that a request's flip mode stands for.
    pub open spec fn of(flip: QueryFlip) -> FlipType {
        match flip {
            QueryFlip::Horizontal => FlipType::Horizontal,
            QueryFlip::Vertical => FlipType::Vertical,
            QueryFlip::VerticalHorizontal => FlipType::VerticalHorizontal,
        }
    }
}

impl vstd::std_specs::convert::FromSpecImpl<QueryFlip> for FlipType {
    open spec fn obeys_from_spec() -> bool {
        true
    }

    open spec fn from_spec(flip: QueryFlip) -> FlipType {
        FlipType::of(flip)
    }
}

impl From<QueryFlip> for FlipType {
    fn from(flip: QueryFlip) -> (flip_type: FlipType) {
        match flip {
            QueryFlip::Horizontal => FlipType::Horizontal,
            QueryFlip::Vertical => FlipType::Vertical,
            QueryFlip::VerticalHorizontal => FlipType::VerticalHorizontal,
        }
    }
}

/// The stage that mirrors the picture.
pub struct Flip {
    pub flip_type: FlipType,
}

impl Flip {
    /// The image that the stage leaves: the picture mirrored along each axis
    /// asked for, the source encoding as it was.
    pub open spec fn output(&self, before: ImageView) -> ImageView {
        ImageView {
            raster: match self.flip_type {
                FlipType::Horizontal => before.raster.flipped_horizontally(),
                FlipType::Vertical => before.raster.flipped_vertically(),
                FlipType::VerticalHorizontal => before.raster.flipped_horizontally()
                    .flipped_vertically(),
            },
            format: before.format,
        }
    }
}

impl Processor for Flip {
    open spec fn spec_name(&self) -> Option<Seq<char>> {
        Some("Flip"@)
    }

    open spec fn accepts(&self, image: ImageView) -> bool {
        true
    }

    open spec fn transforms(
        &self,
        before: ImageView,
        after: ImageView,
        result: Result<(), Error>,
    ) -> bool {
        result is Ok && after == self.output(before)
    }

    fn name(&self) -> (name: &'static str) {
        "Flip"
    }

    fn process(&self, image: &mut Image) -> (result: Result<(), Error>) {
        let flipped = match self.flip_type {
            FlipType::Horizontal => flip_horizontal(&image.inner),
            FlipType::Vertical => flip_vertical(&image.inner),
            FlipType::VerticalHorizontal => {
                let mirrored = flip_horizontal(&image.inner);
                flip_vertical(&mirrored)
            },
        };
        image.extend(flipped);
        Ok(())
    }
}

/// Mirroring keeps the size, the colour model and the source encoding, and
/// mirroring both ways is half a turn: the pixel at `(x, y)` comes from
/// `(width - 1 - x, height - 1 - y)`.
pub proof fn lemma_flip_both_is_half_a_turn(stage: Flip, before: ImageView)
    ensures
        stage.output(before).raster.width == before.raster.width,
        stage.output(before).raster.height == before.raster.height,
        stage.output(before).raster.color == before.raster.color,
        stage.output(before).format == before.format,
        stage.flip_type == FlipType::VerticalHorizontal ==> stage.output(before).raster
            == before.raster.rotated_180(),
{
    if stage.flip_type == FlipType::VerticalHorizontal {
        let both = before.raster.flipped_horizontally().flipped_vertically();
        let turned = before.raster.rotated_180();
        assert(both.pixels =~= turned.pixels);
    }
}

} // verus!
