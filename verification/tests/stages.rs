use darkroom::handler::query::Crop as AskedCrop;
use darkroom::handler::query::Flip as AskedFlip;
use darkroom::handler::query::MonoChrome as Color;
use darkroom::handler::query::Rotate as Angle;
use darkroom::processor::chain::ProcessorChainBuilder;
use darkroom::processor::chain::StageTime;
use darkroom::processor::error::Error;
use darkroom::processor::procs::crop::Crop;
use darkroom::processor::procs::crop::CropPoint;
use darkroom::processor::procs::flip::Flip;
use darkroom::processor::procs::flip::FlipType;
use darkroom::processor::procs::monochrome::black;
use darkroom::processor::procs::monochrome::black_alpha;
use darkroom::processor::procs::monochrome::MonoChrome;
use darkroom::processor::procs::resize::Resize;
use darkroom::processor::procs::rotate::Rotate;
use darkroom::processor::stage::Stage;
use darkroom::processor::Image;
use darkroom::processor::Processor;
use image::DynamicImage;
use image::GenericImageView;
use image::Rgb;
use image::RgbImage;

/// A picture in which every pixel tells where it stands.
fn marked(width: u32, height: u32) -> Image {
    Image::new(DynamicImage::ImageRgb8(RgbImage::from_fn(width, height, |x, y| {
        Rgb([x as u8, y as u8, 7])
    })))
}

fn at(image: &Image, x: u32, y: u32) -> (u8, u8) {
    let pixel = image.get_pixel(x, y).0;
    (pixel[0], pixel[1])
}

#[test]
fn image_new_has_no_format() {
    let image = Image::new(DynamicImage::new_rgb8(2, 3));
    assert_eq!(image.format, None);
    assert_eq!(image.dimensions(), (2, 3));
    assert_eq!(image.inner, DynamicImage::new_rgb8(2, 3));
}

#[test]
fn image_from_a_picture_has_no_format() {
    let image = Image::from(DynamicImage::new_rgb8(2, 3));
    assert_eq!(image.format, None);
    assert_eq!(image.inner, DynamicImage::new_rgb8(2, 3));
}

#[test]
fn image_format_keeps_the_format() {
    let image = Image::format(DynamicImage::new_luma8(1, 1), image::ImageFormat::WebP);
    assert_eq!(image.format, Some(image::ImageFormat::WebP));
    assert_eq!(image.width(), 1);
}

#[test]
fn image_extend_replaces_the_picture() {
    let mut image = Image::format(DynamicImage::new_rgb8(2, 3), image::ImageFormat::Jpeg);
    image.extend(DynamicImage::new_luma8(5, 4));
    assert_eq!(image.dimensions(), (5, 4));
    assert_eq!(image.format, Some(image::ImageFormat::Jpeg));
    assert_eq!(image.inner, DynamicImage::new_luma8(5, 4));
}

#[test]
fn flip_type_goes_by_the_request() {
    assert_eq!(FlipType::from(AskedFlip::Horizontal), FlipType::Horizontal);
    assert_eq!(FlipType::from(AskedFlip::Vertical), FlipType::Vertical);
    assert_eq!(FlipType::from(AskedFlip::VerticalHorizontal), FlipType::VerticalHorizontal);
}

#[test]
fn crop_point_goes_by_the_request() {
    assert_eq!(CropPoint::from(None), CropPoint::Center);
    assert_eq!(CropPoint::from(Some(AskedCrop::Top)), CropPoint::Top);
    assert_eq!(CropPoint::from(Some(AskedCrop::TopLeft)), CropPoint::TopLeft);
    assert_eq!(CropPoint::from(Some(AskedCrop::TopRight)), CropPoint::TopRight);
    assert_eq!(CropPoint::from(Some(AskedCrop::Left)), CropPoint::Left);
    assert_eq!(CropPoint::from(Some(AskedCrop::Right)), CropPoint::Right);
    assert_eq!(CropPoint::from(Some(AskedCrop::Bottom)), CropPoint::Bottom);
    assert_eq!(CropPoint::from(Some(AskedCrop::BottomLeft)), CropPoint::BottomLeft);
    assert_eq!(CropPoint::from(Some(AskedCrop::BottomRight)), CropPoint::BottomRight);
    assert_eq!(CropPoint::from(Some(AskedCrop::Center)), CropPoint::Center);
}

#[test]
fn flip_horizontal_mirrors_the_rows() {
    let mut image = marked(3, 2);
    Flip { flip_type: FlipType::Horizontal }.process(&mut image).unwrap();
    assert_eq!(image.dimensions(), (3, 2));
    assert_eq!(at(&image, 0, 0), (2, 0));
    assert_eq!(at(&image, 2, 0), (0, 0));
    assert_eq!(at(&image, 0, 1), (2, 1));
}

#[test]
fn flip_vertical_mirrors_the_columns() {
    let mut image = marked(3, 2);
    Flip { flip_type: FlipType::Vertical }.process(&mut image).unwrap();
    assert_eq!(image.dimensions(), (3, 2));
    assert_eq!(at(&image, 0, 0), (0, 1));
    assert_eq!(at(&image, 2, 1), (2, 0));
}

#[test]
fn flip_both_mirrors_both() {
    let mut image = marked(3, 2);
    Flip { flip_type: FlipType::VerticalHorizontal }.process(&mut image).unwrap();
    assert_eq!(at(&image, 0, 0), (2, 1));
    assert_eq!(at(&image, 2, 1), (0, 0));
    assert_eq!(at(&image, 1, 0), (1, 1));
}

#[test]
fn flip_both_is_half_a_turn() {
    let mut flipped = marked(5, 3);
    Flip { flip_type: FlipType::VerticalHorizontal }.process(&mut flipped).unwrap();
    let mut turned = marked(5, 3);
    Rotate { degrees: Angle::Whole(180) }.process(&mut turned).unwrap();
    assert_eq!(flipped.inner, turned.inner);
}

#[test]
fn quarter_turns_add_up() {
    let quarter = Rotate { degrees: Angle::Whole(90) };
    let mut image = marked(5, 3);
    quarter.process(&mut image).unwrap();
    quarter.process(&mut image).unwrap();
    let mut half = marked(5, 3);
    Rotate { degrees: Angle::Whole(180) }.process(&mut half).unwrap();
    assert_eq!(image.inner, half.inner);
    quarter.process(&mut image).unwrap();
    let mut three = marked(5, 3);
    Rotate { degrees: Angle::Whole(270) }.process(&mut three).unwrap();
    assert_eq!(image.inner, three.inner);
    quarter.process(&mut image).unwrap();
    assert_eq!(image.inner, marked(5, 3).inner);
}

#[test]
fn rotate_quarter_swaps_the_sides() {
    let mut image = marked(3, 2);
    Rotate { degrees: Angle::Whole(90) }.process(&mut image).unwrap();
    assert_eq!(image.dimensions(), (2, 3));
    assert_eq!(at(&image, 0, 0), (0, 1));
    assert_eq!(at(&image, 1, 0), (0, 0));
    assert_eq!(at(&image, 1, 2), (2, 0));
}

#[test]
fn rotate_half_keeps_the_sides() {
    let mut image = marked(3, 2);
    Rotate { degrees: Angle::Whole(180) }.process(&mut image).unwrap();
    assert_eq!(image.dimensions(), (3, 2));
    assert_eq!(at(&image, 0, 0), (2, 1));
    assert_eq!(at(&image, 2, 1), (0, 0));
}

#[test]
fn rotate_three_quarters_swaps_the_sides() {
    let mut image = marked(3, 2);
    Rotate { degrees: Angle::Whole(270) }.process(&mut image).unwrap();
    assert_eq!(image.dimensions(), (2, 3));
    assert_eq!(at(&image, 0, 0), (2, 0));
    assert_eq!(at(&image, 0, 2), (0, 0));
    assert_eq!(at(&image, 1, 0), (2, 1));
}

#[test]
fn rotate_by_any_other_angle_leaves_the_image() {
    for angle in [
        Angle::Whole(0),
        Angle::Whole(45),
        Angle::Whole(89),
        Angle::Whole(360),
        Angle::Whole(450),
        Angle::Fractional,
    ] {
        let mut image = marked(3, 2);
        let before = image.as_bytes().to_vec();
        Rotate { degrees: angle }.process(&mut image).unwrap();
        assert_eq!(image.dimensions(), (3, 2));
        assert_eq!(image.as_bytes(), &before[..]);
    }
}

#[test]
fn resize_keeps_the_proportions() {
    let testcases: Vec<((u32, u32), (u32, u32), (u32, u32))> = vec![
        ((32, 16), (8, 0), (8, 4)),
        ((32, 16), (0, 8), (16, 8)),
        ((32, 16), (8, 8), (8, 4)),
        ((16, 32), (8, 8), (4, 8)),
        ((32, 32), (1, 1), (1, 1)),
        ((3, 2), (2, 2), (2, 1)),
        ((3, 2), (2, 1), (2, 1)),
        ((2, 3), (2, 1), (0, 1)),
        ((7, 5), (100, 50), (70, 50)),
        ((7, 5), (10, 0), (10, 7)),
        ((1000, 1), (1, 0), (1, 0)),
        ((4, 4), (0, 0), (0, 0)),
    ];

    for (actual, asked, expected) in testcases {
        let stage = Resize { width: asked.0, height: asked.1, maintain_aspect_ratio: true };
        let mut image = marked(actual.0, actual.1);
        assert!(stage.can_process(&image));
        assert_eq!(stage.resize_width_height(&image), expected);
        assert_eq!(stage.fit(actual.0, actual.1), expected);
        stage.resize(&mut image).unwrap();
        assert_eq!(image.dimensions(), expected);
    }
}

#[test]
fn resize_to_the_same_size_leaves_the_image() {
    let stage = Resize { width: 8, height: 4, maintain_aspect_ratio: true };
    let mut image = marked(8, 4);
    let before = image.as_bytes().to_vec();
    stage.process(&mut image).unwrap();
    assert_eq!(image.as_bytes(), &before[..]);
}

#[test]
fn resize_without_a_side_ends_on_one_pixel() {
    for (width, height) in [(3, 0), (0, 4), (0, 0)] {
        let stage = Resize { width, height, maintain_aspect_ratio: false };
        assert_eq!(stage.stretch(), (1, 1));
        let mut image = marked(8, 4);
        assert!(stage.can_process(&image));
        stage.process(&mut image).unwrap();
        assert_eq!(image.dimensions(), (1, 1));
    }
    assert_eq!(Resize { width: 3, height: 4, maintain_aspect_ratio: false }.stretch(), (3, 4));
}

#[test]
fn resize_stretches_to_the_box() {
    let stage = Resize { width: 3, height: 4, maintain_aspect_ratio: false };
    let mut image = marked(32, 32);
    assert!(stage.can_process(&image));
    stage.process(&mut image).unwrap();
    assert_eq!(image.dimensions(), (3, 4));
    assert_eq!(image.as_bytes().len(), 36);
}

#[test]
fn resize_cannot_fit_an_empty_picture() {
    let image = Image::new(DynamicImage::new_rgb8(0, 5));
    assert!(!Resize { width: 4, height: 0, maintain_aspect_ratio: true }.can_process(&image));
    assert!(!Resize { width: 4, height: 4, maintain_aspect_ratio: true }.can_fit(0, 5));
    assert!(Resize { width: 0, height: 4, maintain_aspect_ratio: true }.can_fit(0, 5));
    assert!(!Resize { width: u32::MAX, height: 0, maintain_aspect_ratio: true }.can_fit(1, 2));
}

#[test]
fn crop_scales_to_cover_the_box() {
    let testcases: Vec<((u32, u32), (u32, u32), (u32, u32))> = vec![
        ((32, 32), (2, 2), (2, 2)),
        ((32, 16), (4, 4), (8, 4)),
        ((16, 32), (4, 4), (4, 8)),
        ((4, 4), (8, 2), (8, 8)),
        ((7, 5), (3, 3), (4, 3)),
        ((3, 2), (2, 2), (3, 2)),
        ((10, 15), (3, 4), (3, 4)),
        ((15, 10), (4, 3), (4, 3)),
        ((15, 10), (5, 3), (5, 3)),
        ((3, 2), (2, 1), (2, 1)),
        ((1, 1), (7, 3), (7, 7)),
        ((1, 1000), (1, 1), (1, 1000)),
        ((2_000_000, 1), (1, 1), (2_000_000, 1)),
    ];

    for (actual, asked, expected) in testcases {
        let stage = Crop { point: CropPoint::Center, width: asked.0, height: asked.1 };
        assert!(stage.can_cover_size(actual.0, actual.1));
        let image = Image::new(DynamicImage::new_luma8(actual.0, actual.1));
        assert_eq!(stage.resize_width_height_for_crop(&image), expected);
        assert!(expected.0 >= asked.0 && expected.1 >= asked.1);
    }
    let stage = Crop { point: CropPoint::Center, width: 1, height: 1 };
    assert!(!stage.can_process_size(2_000_000, 1));
    assert!(!stage.can_cover_size(0, 1));
    assert!(!Crop { point: CropPoint::Center, width: u32::MAX, height: 1 }.can_cover_size(1, 9));
}

#[test]
fn crop_starts_where_the_point_holds() {
    let testcases: Vec<(CropPoint, (u32, u32))> = vec![
        (CropPoint::TopLeft, (0, 0)),
        (CropPoint::Top, (3, 0)),
        (CropPoint::TopRight, (6, 0)),
        (CropPoint::Left, (0, 2)),
        (CropPoint::Center, (3, 2)),
        (CropPoint::Right, (6, 2)),
        (CropPoint::BottomLeft, (0, 5)),
        (CropPoint::Bottom, (3, 5)),
        (CropPoint::BottomRight, (6, 5)),
        (CropPoint::Custom(9, 1), (9, 1)),
    ];

    for (point, expected) in testcases {
        let stage = Crop { point, width: 4, height: 3 };
        assert_eq!(stage.start_point_for_crop(10, 8), expected);
    }
}

#[test]
fn crop_yields_the_box_at_every_named_point() {
    for point in [
        CropPoint::TopLeft,
        CropPoint::Top,
        CropPoint::TopRight,
        CropPoint::Left,
        CropPoint::Center,
        CropPoint::Right,
        CropPoint::BottomLeft,
        CropPoint::Bottom,
        CropPoint::BottomRight,
    ] {
        let stage = Crop { point, width: 5, height: 3 };
        let mut image = marked(20, 20);
        assert!(stage.can_process(&image));
        stage.process(&mut image).unwrap();
        assert_eq!(image.dimensions(), (5, 3));
    }
}

#[test]
fn crop_cuts_the_window_out() {
    let mut image = marked(8, 4);
    Crop { point: CropPoint::TopRight, width: 4, height: 4 }.process(&mut image).unwrap();
    assert_eq!(image.dimensions(), (4, 4));
    assert_eq!(at(&image, 0, 0), (4, 0));
    assert_eq!(at(&image, 3, 3), (7, 3));
}

#[test]
fn crop_at_a_custom_point_is_cut_down() {
    let mut image = marked(8, 4);
    let stage = Crop { point: CropPoint::Custom(6, 1), width: 4, height: 4 };
    assert!(stage.can_process(&image));
    stage.process(&mut image).unwrap();
    assert_eq!(image.dimensions(), (2, 3));
    assert_eq!(at(&image, 0, 0), (6, 1));
}

#[test]
fn crop_yields_the_box_where_the_proportions_round() {
    let mut image = Image::new(DynamicImage::ImageRgb8(RgbImage::new(10, 15)));
    let stage = Crop { point: CropPoint::TopLeft, width: 3, height: 4 };
    assert!(stage.can_process(&image));
    assert_eq!(stage.process(&mut image), Ok(()));
    assert_eq!(image.dimensions(), (3, 4));
    assert_eq!(image.as_bytes(), &[0u8; 36]);

    for point in [CropPoint::Center, CropPoint::BottomRight, CropPoint::Custom(0, 0)] {
        for (actual, asked) in [((10, 15), (3, 4)), ((3, 2), (2, 1)), ((1, 1), (5, 9))] {
            let mut image = marked(actual.0, actual.1);
            let stage = Crop { point, width: asked.0, height: asked.1 };
            assert!(stage.can_process(&image));
            assert_eq!(stage.process(&mut image), Ok(()));
            assert_eq!(image.dimensions(), asked);
        }
    }
}

#[test]
fn crop_cannot_run_on_an_empty_picture() {
    let image = Image::new(DynamicImage::new_rgb8(0, 4));
    assert!(!Crop { point: CropPoint::Center, width: 2, height: 1 }.can_process(&image));
    assert!(!Crop { point: CropPoint::Custom(0, 0), width: 2, height: 1 }.can_process(&image));
}

#[test]
fn crop_without_a_box_leaves_the_image() {
    let mut image = marked(8, 4);
    let before = image.as_bytes().to_vec();
    Crop { point: CropPoint::Center, width: 0, height: 0 }.process(&mut image).unwrap();
    assert_eq!(image.as_bytes(), &before[..]);
}

#[test]
fn crop_with_one_side_scales_to_it() {
    let mut image = marked(8, 4);
    Crop { point: CropPoint::Center, width: 4, height: 0 }.process(&mut image).unwrap();
    assert_eq!(image.dimensions(), (4, 2));
    let mut image = marked(8, 4);
    Crop { point: CropPoint::Center, width: 0, height: 2 }.process(&mut image).unwrap();
    assert_eq!(image.dimensions(), (4, 2));
}

#[test]
fn monochrome_desaturates_for_black() {
    for color in [black(), black_alpha()] {
        let picture = RgbImage::from_fn(2, 1, |x, _| {
            if x == 0 {
                Rgb([200, 100, 50])
            } else {
                Rgb([0, 0, 255])
            }
        });
        let mut image = Image::format(DynamicImage::ImageRgb8(picture), image::ImageFormat::Png);
        assert_eq!(MonoChrome { color }.process(&mut image), Ok(()));
        assert_eq!(image.dimensions(), (2, 1));
        assert_eq!(image.color(), image::ColorType::L8);
        assert_eq!(image.as_bytes(), &[117, 18]);
        assert_eq!(image.format, Some(image::ImageFormat::Png));
    }
    assert_eq!(black(), Color::RGB(0, 0, 0));
    assert_eq!(black_alpha(), Color::ARGB(0, 0, 0, 0));
}

#[test]
fn monochrome_keeps_the_alpha_channel() {
    let picture = image::RgbaImage::from_fn(1, 2, |_, y| image::Rgba([200, 100, 50, 70 + y as u8]));
    let mut image = Image::new(DynamicImage::ImageRgba8(picture));
    MonoChrome { color: black_alpha() }.process(&mut image).unwrap();
    assert_eq!(image.dimensions(), (1, 2));
    assert_eq!(image.color(), image::ColorType::La8);
    assert_eq!(image.as_bytes(), &[117, 70, 117, 71]);
}

#[test]
fn monochrome_leaves_the_image_for_any_other_color() {
    for color in [
        Color::RGB(255, 255, 255),
        Color::RGB(0, 0, 1),
        Color::RGB(1, 0, 0),
        Color::ARGB(0, 0, 0, 1),
        Color::ARGB(255, 0, 0, 0),
    ] {
        let mut image = marked(3, 2);
        let before = image.as_bytes().to_vec();
        assert_eq!(MonoChrome { color }.process(&mut image), Ok(()));
        assert_eq!(image.color(), image::ColorType::Rgb8);
        assert_eq!(image.as_bytes(), &before[..]);
    }
}

#[test]
fn stages_have_names() {
    assert_eq!(Flip { flip_type: FlipType::Vertical }.name(), "Flip");
    assert_eq!(Rotate { degrees: Angle::Fractional }.name(), "Rotate");
    assert_eq!(Resize { width: 1, height: 1, maintain_aspect_ratio: true }.name(), "Resize");
    assert_eq!(Crop { point: CropPoint::Center, width: 1, height: 1 }.name(), "Crop");
    assert_eq!(MonoChrome { color: black() }.name(), "MonoChrome");
    assert_eq!(Stage::Rotate(Rotate { degrees: Angle::Whole(90) }).name(), "Rotate");
}

#[test]
fn chain_runs_the_stages_in_order() {
    let mut builder = ProcessorChainBuilder::new();
    builder.add_processor(Stage::Rotate(Rotate { degrees: Angle::Whole(90) }));
    builder.add_processor(Stage::Resize(Resize {
        width: 2,
        height: 0,
        maintain_aspect_ratio: true,
    }));
    let chain = builder.build();
    assert_eq!(chain.len(), 2);
    let mut image = marked(8, 4);
    let mut times: Vec<StageTime> = Vec::new();
    chain.reduce(&mut image, &mut times).unwrap();
    assert_eq!(image.dimensions(), (2, 4));
    assert_eq!(times.len(), 2);
    assert_eq!(times[0].name, "Rotate");
    assert_eq!(times[1].name, "Resize");
}

#[test]
fn empty_chain_leaves_the_image() {
    let chain = ProcessorChainBuilder::<Stage>::new().build();
    let mut image = marked(3, 3);
    let before = image.as_bytes().to_vec();
    let mut times: Vec<StageTime> = Vec::new();
    assert_eq!(chain.reduce(&mut image, &mut times), Ok(()));
    assert!(times.is_empty());
    assert_eq!(image.as_bytes(), &before[..]);
}

/// A stage of the test's own: it turns the picture upside down, or fails.
struct Fallible {
    fails: bool,
}

impl Processor for Fallible {
    fn name(&self) -> &'static str {
        "Fallible"
    }

    fn process(&self, image: &mut Image) -> Result<(), Error> {
        if self.fails {
            return Err(Error::Generic("no luck".to_string()));
        }
        let turned = image.rotate180();
        image.extend(turned);
        Ok(())
    }
}

#[test]
fn chain_stops_at_the_first_failure() {
    let mut builder = ProcessorChainBuilder::new();
    builder.add_processor(Fallible { fails: false });
    builder.add_processor(Fallible { fails: true });
    builder.add_processor(Fallible { fails: false });
    let chain = builder.build();
    let mut image = marked(3, 2);
    let mut times: Vec<StageTime> = Vec::new();
    let result = chain.reduce(&mut image, &mut times);
    assert_eq!(result, Err(Error::Generic("no luck".to_string())));
    assert_eq!(times.len(), 1);
    assert_eq!(times[0].name, "Fallible");
    assert_eq!(at(&image, 0, 0), (2, 1));
}

#[test]
fn errors_have_messages() {
    assert_eq!(Error::Generic("no luck".to_string()).message(), "error: no luck");
    assert_eq!(Error::GPUError.message(), "processor: gpu error");
    assert_eq!(
        Error::BufferError.message(),
        "Error occurred when trying to async map a buffer"
    );
    assert_eq!(
        Error::ImageBufferCreateError.message(),
        "processor: failed to create image buffer"
    );
}
