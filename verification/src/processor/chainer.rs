//! From a request's parameters to the chain that carries them out.

use vstd::prelude::*;

use crate::handler::query::fit::Fit;
use crate::handler::query::params::ProcessParams;
use crate::handler::query::rotate::Rotate as Angle;
use crate::processor::Processor as _;
use crate::processor::chain::ProcessorChain;
use crate::processor::chain::ProcessorChainBuilder;
use crate::processor::chain::StageTime;
use crate::processor::chain::ran;
use crate::processor::chain::recorded;
use crate::processor::error::Error;
use crate::processor::img::Image;
use crate::processor::img::ImageView;
use crate::processor::procs::blur::Blur;
use crate::processor::procs::crop::Crop;
use crate::processor::procs::crop::CropPoint;
use crate::processor::procs::crop::lemma_crop_yields_the_box;
use crate::processor::procs::flip::Flip;
use crate::processor::procs::flip::FlipType;
use crate::processor::procs::monochrome::MonoChrome;
use crate::processor::procs::resize::Resize;
use crate::processor::procs::rotate::Rotate;
use crate::processor::stage::Stage;
use crate::processor::stage::acceptable;
use crate::processor::stage::lemma_acceptable_is_runnable;
use crate::processor::stage::lemma_trace_follows_run;
use crate::processor::stage::run;

verus! {

/// The side of the requested box: the number given, or 0 where none is.
pub open spec fn side(given: Option<u16>) -> u32 {
    match given {
        Some(pixels) => pixels as u32,
        None => 0,
    }
}

/// The mirroring that a request asks for, if any.
pub open spec fn flip_stage(params: ProcessParams) -> Seq<Stage> {
    match params.flip {
        Some(flip) => seq![Stage::Flip(Flip { flip_type: FlipType::of(flip) })],
        None => Seq::empty(),
    }
}

/// The turn that a request asks for, if any.
pub open spec fn rotate_stage(params: ProcessParams) -> Seq<Stage> {
    match params.rotate {
        Some(angle) => seq![Stage::Rotate(Rotate { degrees: angle })],
        None => Seq::empty(),
    }
}

/// The one stage that brings the picture to the requested box, if any. A fit
/// mode decides: to crop is to cut at the anchor, to scale is to stretch.
/// Without a fit mode the picture keeps its proportions inside the box, if a
/// side of the box is given at all.
pub open spec fn sizing_stage(params: ProcessParams) -> Seq<Stage> {
    match params.fit {
        Some(Fit::Crop) => seq![
            Stage::Crop(
                Crop {
                    point: CropPoint::of(params.crop),
                    width: side(params.width),
                    height: side(params.height),
                },
            ),
        ],
        Some(Fit::Scale) => seq![
            Stage::Resize(
                Resize {
                    width: side(params.width),
                    height: side(params.height),
                    maintain_aspect_ratio: false,
                },
            ),
        ],
        None => if params.width is Some || params.height is Some {
            seq![
                Stage::Resize(
                    Resize {
                        width: side(params.width),
                        height: side(params.height),
                        maintain_aspect_ratio: true,
                    },
                ),
            ]
        } else {
            Seq::empty()
        },
    }
}

/// The monochrome rendering that a request asks for, if any.
pub open spec fn monochrome_stage(params: ProcessParams) -> Seq<Stage> {
    match params.monochrome {
        Some(color) => seq![Stage::MonoChrome(MonoChrome { color })],
        None => Seq::empty(),
    }
}

/// The stages that carry out a request, in the order in which they run:
/// mirroring, turning, sizing, monochrome.
pub open spec fn stages_of(params: ProcessParams) -> Seq<Stage> {
    flip_stage(params) + rotate_stage(params) + sizing_stage(params) + monochrome_stage(params)
}

/// The blur that is left to do once the stages have run: the one asked for,
/// unless its radius is 0.
pub open spec fn blur_of(params: ProcessParams) -> Option<Blur> {
    match params.blur {
        Some(radius) => if radius == 0 {
            None
        } else {
            Some(Blur { radius })
        },
        None => None,
    }
}

/// The size of a picture of `width` by `height` pixels once the turn that a
/// request asks for is made: a quarter and three quarters of a turn change
/// width and height over.
pub open spec fn turned_size(params: ProcessParams, width: nat, height: nat) -> (nat, nat) {
    if params.rotate == Some(Angle::Whole(90)) || params.rotate == Some(Angle::Whole(270)) {
        (height, width)
    } else {
        (width, height)
    }
}

/// Whether the sizing stage of a request, if it has one, can be run on a
/// picture of the given size.
pub open spec fn sizing_accepts(params: ProcessParams, width: nat, height: nat) -> bool {
    match params.fit {
        Some(Fit::Crop) => Crop {
            point: CropPoint::of(params.crop),
            width: side(params.width),
            height: side(params.height),
        }.accepts_size(width, height),
        Some(Fit::Scale) => Resize {
            width: side(params.width),
            height: side(params.height),
            maintain_aspect_ratio: false,
        }.accepts_size(width, height),
        None => params.width is Some || params.height is Some ==> Resize {
            width: side(params.width),
            height: side(params.height),
            maintain_aspect_ratio: true,
        }.accepts_size(width, height),
    }
}

/// Mirroring keeps the size of the picture, and the turn of a request changes
/// width and height over where it is a quarter or three quarters of a turn.
pub proof fn lemma_turned_size(params: ProcessParams, image: ImageView)
    ensures
        ({
            let turned = run(flip_stage(params) + rotate_stage(params), image).raster;
            let size = turned_size(params, image.raster.width, image.raster.height);
            turned.width == size.0 && turned.height == size.1
        }),
{
    reveal_with_fuel(run, 3);
    let early = flip_stage(params) + rotate_stage(params);
    let flipped = run(flip_stage(params), image);
    assert(flipped.raster.width == image.raster.width && flipped.raster.height
        == image.raster.height) by {
        if params.flip is Some {
            assert(flip_stage(params).drop_last() =~= Seq::<Stage>::empty());
        }
    }
    if params.rotate is Some {
        assert(early.drop_last() =~= flip_stage(params));
    } else {
        assert(early =~= flip_stage(params));
    }
}

/// The stages of a request can be run on an image if and only if its sizing
/// stage can be run on a picture of the size that the image has after the
/// turn: mirroring, turning and monochrome can always be run.
pub proof fn lemma_acceptable_by_size(params: ProcessParams, image: ImageView)
    ensures
        acceptable(stages_of(params), image) <==> sizing_accepts(
            params,
            turned_size(params, image.raster.width, image.raster.height).0,
            turned_size(params, image.raster.width, image.raster.height).1,
        ),
{
    reveal_with_fuel(run, 3);
    let stages = stages_of(params);
    let early = flip_stage(params) + rotate_stage(params);
    let turned = run(early, image);
    let size = turned_size(params, image.raster.width, image.raster.height);
    lemma_turned_size(params, image);
    let at = early.len() as int;
    if sizing_stage(params).len() == 1 {
        assert(stages.take(at) =~= early);
        assert(stages[at] == sizing_stage(params)[0]);
    }
    if sizing_accepts(params, size.0, size.1) {
        assert forall|k: int| 0 <= k < stages.len() implies (#[trigger] stages[k]).accepts(
            run(stages.take(k), image),
        ) by {
            if k == at && sizing_stage(params).len() == 1 {
            } else {
                assert(stages[k] is Flip || stages[k] is Rotate || stages[k] is MonoChrome);
            }
        }
    }
}

/// Builds the chain for a request and runs it.
pub struct Processor {}

impl Processor {
    /// The chain that carries out a request.
    pub fn chain(&self, params: &ProcessParams) -> (chain: ProcessorChain<Stage>)
        ensures
            chain@ == stages_of(*params),
    {
        let mut cb = ProcessorChainBuilder::new();
        if let Some(flip) = params.flip {
            cb.add_processor(Stage::Flip(Flip { flip_type: FlipType::from(flip) }));
        }
        assert(cb@ =~= flip_stage(*params));
        if let Some(rotate) = params.rotate {
            cb.add_processor(Stage::Rotate(Rotate { degrees: rotate }));
        }
        assert(cb@ =~= flip_stage(*params) + rotate_stage(*params));
        let width: u32 = match params.width {
            Some(pixels) => pixels as u32,
            None => 0,
        };
        let height: u32 = match params.height {
            Some(pixels) => pixels as u32,
            None => 0,
        };
        match params.fit {
            Some(Fit::Crop) => {
                cb.add_processor(
                    Stage::Crop(Crop { point: CropPoint::from(params.crop), width, height }),
                );
            },
            Some(Fit::Scale) => {
                cb.add_processor(
                    Stage::Resize(Resize { width, height, maintain_aspect_ratio: false }),
                );
            },
            None => {
                if params.width.is_some() || params.height.is_some() {
                    cb.add_processor(
                        Stage::Resize(Resize { width, height, maintain_aspect_ratio: true }),
                    );
                }
            },
        }
        assert(cb@ =~= flip_stage(*params) + rotate_stage(*params) + sizing_stage(*params));
        if let Some(monochrome) = params.monochrome {
            cb.add_processor(Stage::MonoChrome(MonoChrome { color: monochrome }));
        }
        assert(cb@ =~= stages_of(*params));
        cb.build()
    }

    /// The blur that a request leaves to a backend, if any.
    pub fn blur(&self, params: &ProcessParams) -> (blur: Option<Blur>)
        ensures
            blur == blur_of(*params),
    {
        match params.blur {
            Some(radius) => if radius == 0 {
                None
            } else {
                Some(Blur { radius })
            },
            None => None,
        }
    }

    /// Whether the stages of a request can be run on an image.
    pub fn can_process(&self, image: &Image, params: &ProcessParams) -> (can: bool)
        ensures
            can == acceptable(stages_of(*params), image@),
    {
        proof {
            lemma_acceptable_by_size(*params, image@);
        }
        let (actual_width, actual_height) = image.dimensions();
        let (width, height) = match params.rotate {
            Some(Angle::Whole(90)) => (actual_height, actual_width),
            Some(Angle::Whole(270)) => (actual_height, actual_width),
            _ => (actual_width, actual_height),
        };
        let box_width: u32 = match params.width {
            Some(pixels) => pixels as u32,
            None => 0,
        };
        let box_height: u32 = match params.height {
            Some(pixels) => pixels as u32,
            None => 0,
        };
        match params.fit {
            Some(Fit::Crop) => Crop {
                point: CropPoint::from(params.crop),
                width: box_width,
                height: box_height,
            }.can_process_size(width, height),
            Some(Fit::Scale) => Resize {
                width: box_width,
                height: box_height,
                maintain_aspect_ratio: false,
            }.can_process_size(width, height),
            None => {
                if params.width.is_some() || params.height.is_some() {
                    Resize {
                        width: box_width,
                        height: box_height,
                        maintain_aspect_ratio: true,
                    }.can_process_size(width, height)
                } else {
                    true
                }
            },
        }
    }

    /// Carries out a request on an image, but for its blur: builds the chain
    /// and runs it, adding the time of each stage to `times`. The blur that
    /// is left to do, if any, is handed back; it comes last.
    pub fn process(
        &self,
        image: &mut Image,
        params: ProcessParams,
        times: &mut Vec<StageTime>,
    ) -> (result: Result<Option<Blur>, Error>)
        requires
            acceptable(stages_of(params), old(image)@),
        ensures
            result matches Ok(blur) && blur == blur_of(params),
            final(image)@ == run(stages_of(params), old(image)@),
            recorded(
                stages_of(params),
                old(times)@,
                final(times)@,
                stages_of(params).len() as int,
            ),
            stages_of(params).len() == 0 ==> *final(image) == *old(image),
    {
        let chain = self.chain(&params);
        proof {
            lemma_acceptable_is_runnable(chain@, image@);
        }
        let outcome = chain.reduce(image, times);
        proof {
            let trace = choose|trace: Seq<ImageView>|
                {
                    &&& #[trigger] ran(chain@, trace)
                    &&& trace[0] == old(image)@
                    &&& recorded(chain@, old(times)@, times@, trace.len() - 1)
                    &&& match outcome {
                        Ok(_) => trace.len() == chain@.len() + 1 && trace.last() == image@,
                        Err(_) => trace.len() <= chain@.len() && chain@[trace.len()
                            - 1].transforms(trace.last(), image@, outcome),
                    }
                };
            assert(outcome is Ok);
            lemma_trace_follows_run(chain@, trace, chain@.len() as int);
            assert(chain@.take(chain@.len() as int) =~= chain@);
        }
        match outcome {
            Ok(_) => Ok(self.blur(&params)),
            Err(error) => Err(error),
        }
    }
}

/// A request that asks for nothing has an empty chain and leaves no blur to
/// do.
pub proof fn lemma_noop_has_no_stages(params: ProcessParams)
    requires
        params.spec_is_noop(),
    ensures
        stages_of(params) == Seq::<Stage>::empty(),
        blur_of(params) is None,
        forall|image: ImageView| run(stages_of(params), image) == image,
{
    assert(stages_of(params) =~= Seq::<Stage>::empty());
}

/// A blur of radius 0 is no blur: nothing is left to a backend, and the image
/// that the stages leave is the image that goes back.
pub proof fn lemma_zero_blur_is_no_blur(params: ProcessParams)
    requires
        params.blur == Some(0u16),
    ensures
        blur_of(params) is None,
{
}

/// A request to crop to a box of which both sides are given ends on a picture
/// of exactly that box, whatever else it asks for and whatever the size of
/// the picture, if the picture is not empty.
pub proof fn lemma_crop_request_yields_the_box(
    params: ProcessParams,
    image: ImageView,
    width: u16,
    height: u16,
)
    requires
        params.fit == Some(Fit::Crop),
        params.width == Some(width),
        params.height == Some(height),
        width > 0,
        height > 0,
        image.raster.width > 0,
        image.raster.height > 0,
    ensures
        run(stages_of(params), image).raster.width == width,
        run(stages_of(params), image).raster.height == height,
{
    reveal_with_fuel(run, 2);
    let stages = stages_of(params);
    let early = flip_stage(params) + rotate_stage(params);
    let sized = early + sizing_stage(params);
    let cut = sizing_stage(params)[0];
    lemma_turned_size(params, image);
    lemma_crop_yields_the_box(
        Crop { point: CropPoint::of(params.crop), width: width as u32, height: height as u32 },
        run(early, image),
    );
    assert(sized.drop_last() =~= early);
    assert(sized.last() == cut);
    assert(stages.take(early.len() as int) =~= early);
    assert(stages[early.len() as int] == cut);
    if params.monochrome is Some {
        assert(stages.drop_last() =~= sized);
    } else {
        assert(stages =~= sized);
    }
}

} // verus!
