//! The chain: an ordered list of stages, and its run over an image.

use std::time::Duration;
use std::time::Instant;
use vstd::prelude::*;

use crate::processor::Processor;
use crate::processor::error::Error;
use crate::processor::img::Image;
use crate::processor::img::ImageView;

verus! {

#[verifier::external_type_specification]
#[verifier::external_body]
pub struct ExInstant(std::time::Instant);

/// `Instant::now`: the present moment.
#[verifier::external_body]
fn now() -> Instant {
    Instant::now()
}

/// `Instant::elapsed`: the time that has passed since the moment.
#[verifier::external_body]
fn elapsed(since: &Instant) -> Duration {
    since.elapsed()
}

/// How long one stage took.
pub struct StageTime {
    /// The name of the stage.
    pub name: &'static str,
    /// The time that its run took.
    pub elapsed: Duration,
}

/// Whether `trace` is the course of a run of the first stages of a chain,
/// all of which succeeded: it starts with the image that the run started on,
/// and after each stage comes the image that the stage left.
pub open spec fn ran<P: Processor>(stages: Seq<P>, trace: Seq<ImageView>) -> bool {
    &&& 1 <= trace.len() <= stages.len() + 1
    &&& forall|k: int|
        0 <= k < trace.len() - 1 ==> (#[trigger] stages[k]).transforms(
            trace[k],
            trace[k + 1],
            Ok(()),
        )
}

/// Whether a chain can be run on an image: however the run goes, each stage
/// accepts the image that the stages before it have left.
pub open spec fn runnable<P: Processor>(stages: Seq<P>, start: ImageView) -> bool {
    forall|trace: Seq<ImageView>|
        #[trigger] ran(stages, trace) && trace[0] == start && trace.len() <= stages.len()
            ==> stages[trace.len() - 1].accepts(trace.last())
}

/// Whether `after` is `before` with one more entry for each of the first
/// `count` stages, in their order and under their names.
pub open spec fn recorded<P: Processor>(
    stages: Seq<P>,
    before: Seq<StageTime>,
    after: Seq<StageTime>,
    count: int,
) -> bool {
    &&& after.len() == before.len() + count
    &&& after.take(before.len() as int) =~= before
    &&& forall|k: int|
        0 <= k < count ==> (stages[k].spec_name() matches Some(promised) ==> (
            #[trigger] after[before.len() + k]).name@ == promised)
}

/// Collects the stages of a chain, in the order in which they are to run.
pub struct ProcessorChainBuilder<P> {
    processors: Vec<P>,
}

impl<P> View for ProcessorChainBuilder<P> {
    type V = Seq<P>;

    closed spec fn view(&self) -> Seq<P> {
        self.processors@
    }
}

impl<P: Processor> ProcessorChainBuilder<P> {
    /// A builder that holds no stage yet.
    pub fn new() -> (builder: Self)
        ensures
            builder@ == Seq::<P>::empty(),
    {
        Self { processors: Vec::new() }
    }

    /// Puts a stage at the end.
    pub fn add_processor(&mut self, processor: P)
        ensures
            final(self)@ == old(self)@.push(processor),
    {
        self.processors.push(processor);
    }

    /// The chain of the stages collected.
    pub fn build(self) -> (chain: ProcessorChain<P>)
        ensures
            chain@ == self@,
    {
        ProcessorChain { processors: self.processors }
    }
}

/// An ordered list of stages.
pub struct ProcessorChain<P> {
    processors: Vec<P>,
}

impl<P> View for ProcessorChain<P> {
    type V = Seq<P>;

    closed spec fn view(&self) -> Seq<P> {
        self.processors@
    }
}

impl<P: Processor> ProcessorChain<P> {
    /// The number of stages.
    pub fn len(&self) -> (count: usize)
        ensures
            count == self@.len(),
    {
        self.processors.len()
    }

    /// Runs the stages on the image, in their order. After each stage that
    /// succeeds, its name and the time it took are added to `times`. The
    /// first stage that fails ends the run: no later stage is run, the image
    /// stays as that stage left it, and its error is the result.
    pub fn reduce(&self, image: &mut Image, times: &mut Vec<StageTime>) -> (result: Result<
        (),
        Error,
    >)
        requires
            runnable(self@, old(image)@),
        ensures
            exists|trace: Seq<ImageView>|
                {
                    &&& #[trigger] ran(self@, trace)
                    &&& trace[0] == old(image)@
                    &&& recorded(self@, old(times)@, final(times)@, trace.len() - 1)
                    &&& match result {
                        Ok(_) => trace.len() == self@.len() + 1 && trace.last() == final(image)@,
                        Err(_) => trace.len() <= self@.len() && self@[trace.len()
                            - 1].transforms(trace.last(), final(image)@, result),
                    }
                },
            self@.len() == 0 ==> result is Ok && *final(image) == *old(image),
    {
        let ghost mut trace: Seq<ImageView> = seq![image@];
        let mut i: usize = 0;
        while i < self.processors.len()
            invariant
                i <= self.processors.len(),
                self@ == self.processors@,
                runnable(self@, old(image)@),
                ran(self@, trace),
                trace.len() == i + 1,
                trace[0] == old(image)@,
                trace.last() == image@,
                recorded(self@, old(times)@, times@, i as int),
                i == 0 ==> *image == *old(image),
            decreases self.processors.len() - i,
        {
            let start = now();
            let outcome = self.processors[i].process(image);
            match outcome {
                Ok(()) => {},
                Err(error) => {
                    return Err(error);
                },
            }
            let ghost listed = times@;
            times.push(StageTime { name: self.processors[i].name(), elapsed: elapsed(&start) });
            proof {
                let longer = trace.push(image@);
                assert forall|k: int| 0 <= k < longer.len() - 1 implies (
                #[trigger] self@[k]).transforms(longer[k], longer[k + 1], Ok(())) by {
                    if k < trace.len() - 1 {
                        assert(longer[k] == trace[k] && longer[k + 1] == trace[k + 1]);
                    } else {
                        assert(outcome->Ok_0 == ());
                    }
                }
                assert(times@.take(old(times)@.len() as int) =~= listed.take(
                    old(times)@.len() as int,
                ));
                trace = longer;
            }
            i += 1;
        }
        Ok(())
    }
}

} // verus!
