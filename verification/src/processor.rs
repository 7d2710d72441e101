//! The transform pipeline: the image value, the stages and the chain that runs them.

pub mod chain;
pub mod chainer;
pub mod error;
pub mod gpuprocs;
pub mod img;
pub mod procs;
pub mod raster;
pub mod stage;

pub use crate::processor::img::Image;

use vstd::prelude::*;

use crate::processor::error::Error;
use crate::processor::img::ImageView;

verus! {

/// One transform of the pipeline. A stage is run on an image that it accepts;
/// it changes the image and either succeeds or fails.
pub trait Processor {
    /// The name under which the stage is known, where the stage promises
    /// one.
    open spec fn spec_name(&self) -> Option<Seq<char>> {
        None
    }

    /// Whether the stage can be run on an image. A stage that says nothing
    /// can be run on any.
    open spec fn accepts(&self, image: ImageView) -> bool {
        true
    }

    /// Whether a run of the stage that started on `before` can end on `after`
    /// with `result`. A stage that says nothing can end anyhow.
    open spec fn transforms(
        &self,
        before: ImageView,
        after: ImageView,
        result: Result<(), Error>,
    ) -> bool {
        true
    }

    /// The name under which the stage is known.
    fn name(&self) -> (name: &'static str)
        ensures
            self.spec_name() matches Some(promised) ==> name@ == promised,
    ;

    /// Runs the stage on the image.
    fn process(&self, image: &mut Image) -> (result: Result<(), Error>)
        requires
            self.accepts(old(image)@),
        ensures
            self.transforms(old(image)@, final(image)@, result),
    ;
}

} // verus!
