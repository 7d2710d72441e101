//! The stages that the service builds its chains from, as one type.

use vstd::prelude::*;

use crate::processor::Processor;
use crate::processor::chain::ran;
use crate::processor::chain::runnable;
use crate::processor::error::Error;
use crate::processor::img::Image;
use crate::processor::img::ImageView;
use crate::processor::procs::crop::Crop;
use crate::processor::procs::flip::Flip;
use crate::processor::procs::monochrome::MonoChrome;
use crate::processor::procs::resize::Resize;
use crate::processor::procs::rotate::Rotate;

verus! {

/// One of the stages that change the picture within this library.
pub enum Stage {
    Flip(Flip),
    Rotate(Rotate),
    Resize(Resize),
    Crop(Crop),
    MonoChrome(MonoChrome),
}

impl Stage {
    /// The image that the stage leaves.
    pub open spec fn output(&self, before: ImageView) -> ImageView {
        match self {
            Stage::Flip(stage) => stage.output(before),
            Stage::Rotate(stage) => stage.output(before),
            Stage::Resize(stage) => stage.output(before),
            Stage::Crop(stage) => stage.output(before),
            Stage::MonoChrome(stage) => stage.output(before),
        }
    }
}

impl Processor for Stage {
    open spec fn spec_name(&self) -> Option<Seq<char>> {
        match self {
            Stage::Flip(stage) => stage.spec_name(),
            Stage::Rotate(stage) => stage.spec_name(),
            Stage::Resize(stage) => stage.spec_name(),
            Stage::Crop(stage) => stage.spec_name(),
            Stage::MonoChrome(stage) => stage.spec_name(),
        }
    }

    open spec fn accepts(&self, image: ImageView) -> bool {
        match self {
            Stage::Flip(stage) => stage.accepts(image),
            Stage::Rotate(stage) => stage.accepts(image),
            Stage::Resize(stage) => stage.accepts(image),
            Stage::Crop(stage) => stage.accepts(image),
            Stage::MonoChrome(stage) => stage.accepts(image),
        }
    }

    open spec fn transforms(
        &self,
        before: ImageView,
        after: ImageView,
        result: Result<(), Error>,
    ) -> bool {
        result is Ok && after == self.output(before)
    }

    fn name(&self) -> (name: &'static str) {
        match self {
            Stage::Flip(stage) => stage.name(),
            Stage::Rotate(stage) => stage.name(),
            Stage::Resize(stage) => stage.name(),
            Stage::Crop(stage) => stage.name(),
            Stage::MonoChrome(stage) => stage.name(),
        }
    }

    fn process(&self, image: &mut Image) -> (result: Result<(), Error>) {
        match self {
            Stage::Flip(stage) => stage.process(image),
            Stage::Rotate(stage) => stage.process(image),
            Stage::Resize(stage) => stage.process(image),
            Stage::Crop(stage) => stage.process(image),
            Stage::MonoChrome(stage) => stage.process(image),
        }
    }
}

/// The image that the stages leave when they are run one after the other,
/// the first of them on `image`.
pub open spec fn run(stages: Seq<Stage>, image: ImageView) -> ImageView
    decreases stages.len(),
{
    if stages.len() == 0 {
        image
    } else {
        stages.last().output(run(stages.drop_last(), image))
    }
}

/// Whether each stage accepts the image that the stages before it leave.
pub open spec fn acceptable(stages: Seq<Stage>, image: ImageView) -> bool {
    forall|k: int|
        0 <= k < stages.len() ==> (#[trigger] stages[k]).accepts(run(stages.take(k), image))
}

/// Whatever way a chain of these stages runs, after each stage the image is
/// the one that `run` gives.
pub proof fn lemma_trace_follows_run(stages: Seq<Stage>, trace: Seq<ImageView>, k: int)
    requires
        ran(stages, trace),
        0 <= k < trace.len(),
    ensures
        trace[k] == run(stages.take(k), trace[0]),
    decreases k,
{
    if k > 0 {
        lemma_trace_follows_run(stages, trace, k - 1);
        assert(stages.take(k).drop_last() =~= stages.take(k - 1));
        assert(stages[k - 1].transforms(trace[k - 1], trace[k - 1 + 1], Ok(())));
    }
}

/// A chain of these stages can run on an image if each stage accepts what
/// the ones before it leave.
pub proof fn lemma_acceptable_is_runnable(stages: Seq<Stage>, image: ImageView)
    requires
        acceptable(stages, image),
    ensures
        runnable(stages, image),
{
    assert forall|trace: Seq<ImageView>|
        #[trigger] ran(stages, trace) && trace[0] == image && trace.len()
            <= stages.len() implies stages[trace.len() - 1].accepts(trace.last()) by {
        lemma_trace_follows_run(stages, trace, trace.len() - 1);
    }
}

} // verus!
