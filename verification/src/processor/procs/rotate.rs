//! Turning by quarters.

use vstd::prelude::*;

use crate::handler::query::rotate::Rotate as Angle;
use crate::processor::Processor;
use crate::processor::error::Error;
use crate::processor::img::Image;
use crate::processor::img::ImageView;
use crate::processor::raster::Raster;
use crate::processor::raster::rotate_180;
use crate::processor::raster::rotate_270;
use crate::processor::raster::rotate_90;

verus! {

/// The stage that turns the picture clockwise. Only a quarter, a half and
/// three quarters of a turn are carried out; at any other angle the stage
/// leaves the image as it is.
pub struct Rotate {
    pub degrees: Angle,
}

impl Rotate {
    /// Whether the stage turns the picture at all.
    pub open spec fn turns(&self) -> bool {
        self.degrees == Angle::Whole(90) || self.degrees == Angle::Whole(180) || self.degrees
            == Angle::Whole(270)
    }

    /// The image that the stage leaves.
    pub open spec fn output(&self, before: ImageView) -> ImageView {
        ImageView {
            raster: if self.degrees == Angle::Whole(90) {
                before.raster.rotated_90()
            } else if self.degrees == Angle::Whole(180) {
                before.raster.rotated_180()
            } else if self.degrees == Angle::Whole(270) {
                before.raster.rotated_270()
            } else {
                before.raster
            },
            format: before.format,
        }
    }
}

impl Processor for Rotate {
    open spec fn spec_name(&self) -> Option<Seq<char>> {
        Some("Rotate"@)
    }

    open spec fn accepts(&self, image: ImageView) -> bool {
        true
    }

    open spec fn transforms(
        &self,
        before: ImageView,
        after: ImageView,
        result: Result<(), Error>,
    ) -> bool {
        result is Ok && after == self.output(before)
    }

    fn name(&self) -> (name: &'static str) {
        "Rotate"
    }

    fn process(&self, image: &mut Image) -> (result: Result<(), Error>)
        ensures
            !self.turns() ==> *final(image) == *old(image),
    {
        let rotated = match self.degrees {
            Angle::Whole(90) => Some(rotate_90(&image.inner)),
            Angle::Whole(180) => Some(rotate_180(&image.inner)),
            Angle::Whole(270) => Some(rotate_270(&image.inner)),
            _ => None,
        };
        if let Some(rotated) = rotated {
            image.extend(rotated);
        }
        Ok(())
    }
}

/// A quarter and three quarters of a turn change width and height over, half
/// a turn keeps both, and at any other angle the image stays as it is.
pub proof fn lemma_rotate_sizes(stage: Rotate, before: ImageView)
    ensures
        stage.degrees == Angle::Whole(90) || stage.degrees == Angle::Whole(270) ==> {
            &&& stage.output(before).raster.width == before.raster.height
            &&& stage.output(before).raster.height == before.raster.width
        },
        stage.degrees == Angle::Whole(180) ==> {
            &&& stage.output(before).raster.width == before.raster.width
            &&& stage.output(before).raster.height == before.raster.height
        },
        !stage.turns() ==> stage.output(before) == before,
        stage.output(before).raster.color == before.raster.color,
        stage.output(before).format == before.format,
{
}

/// Quarter turns add up: two of them are half a turn, and three of them are
/// three quarters of a turn.
pub proof fn lemma_quarter_turns_add_up(picture: Raster)
    ensures
        picture.rotated_90().rotated_90() == picture.rotated_180(),
        picture.rotated_90().rotated_90().rotated_90() == picture.rotated_270(),
{
    let half = picture.rotated_90().rotated_90();
    assert(half.pixels =~= picture.rotated_180().pixels);
    assert(half.rotated_90().pixels =~= picture.rotated_270().pixels);
}

} // verus!
