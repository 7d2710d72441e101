use darkroom::handler::query::AutoFeature;
use darkroom::handler::query::Crop;
use darkroom::handler::query::Fit;
use darkroom::handler::query::Flip;
use darkroom::handler::query::MonoChrome;
use darkroom::handler::query::ProcessParams;
use darkroom::handler::query::Rotate;
use darkroom::processor::chain::StageTime;
use darkroom::processor::chainer::Processor;
use darkroom::processor::procs::blur::Blur;
use darkroom::processor::Image;
use image::DynamicImage;
use image::GenericImageView;
use image::Rgb;
use image::RgbImage;

/// Blurs as the service does without a graphics device.
fn blur(image: &mut Image, blur: Blur) {
    if blur.is_noop() {
        return;
    }
    let sigma = blur.clamped_radius() as f32 / 3.0;
    let blurred = image.blur(sigma);
    blur.finish(image, blurred).unwrap();
}

fn process(image: &mut Image, params: ProcessParams) -> Vec<StageTime> {
    let processor = Processor {};
    assert!(processor.can_process(image, &params));
    let mut times = Vec::new();
    let pending = processor.process(image, params, &mut times).unwrap();
    if let Some(pending) = pending {
        blur(image, pending);
    }
    times
}

/// A picture in which every pixel tells where it stands.
fn marked(width: u32, height: u32) -> DynamicImage {
    DynamicImage::ImageRgb8(RgbImage::from_fn(width, height, |x, y| {
        Rgb([x as u8, y as u8, 7])
    }))
}

#[test]
fn test_process() {
    let testcases: Vec<(ProcessParams, Vec<u8>)> = vec![
        (
            ProcessParams {
                width: Some(2),
                height: Some(2),
                fit: Some(Fit::Crop),
                crop: Some(Crop::TopLeft),
                flip: Some(Flip::VerticalHorizontal),
                blur: Some(3),
                rotate: Some(Rotate::Whole(90)),
                auto_features: Some(AutoFeature::from_iter(vec![AutoFeature::Compress])),
                monochrome: Some(MonoChrome::ARGB(0, 0, 0, 0)),
            },
            [0, 0, 0, 0].to_vec(),
        ),
        (
            ProcessParams {
                width: Some(3),
                height: Some(4),
                fit: Some(Fit::Scale),
                ..ProcessParams::default()
            },
            [0; 36].to_vec(),
        ),
        (
            ProcessParams {
                width: Some(1),
                height: Some(1),
                ..ProcessParams::default()
            },
            [0, 0, 0].to_vec(),
        ),
    ];

    for testcase in testcases {
        let base_image: DynamicImage = DynamicImage::ImageRgb8(RgbImage::new(32, 32));
        let mut image = Image::new(base_image);
        process(&mut image, testcase.0);
        assert_eq!(&testcase.1, image.as_bytes());
    }
}

#[test]
fn end_to_end_crop_keeps_rgb_and_the_box() {
    let params = ProcessParams {
        width: Some(2),
        height: Some(2),
        fit: Some(Fit::Crop),
        crop: Some(Crop::TopLeft),
        flip: Some(Flip::VerticalHorizontal),
        blur: Some(3),
        rotate: Some(Rotate::Whole(90)),
        ..ProcessParams::default()
    };
    let mut image = Image::new(DynamicImage::ImageRgb8(RgbImage::new(32, 32)));
    let times = process(&mut image, params);
    assert_eq!(image.dimensions(), (2, 2));
    assert_eq!(image.color(), image::ColorType::Rgb8);
    assert_eq!(image.as_bytes().len(), 12);
    let names: Vec<&str> = times.iter().map(|time| time.name).collect();
    assert_eq!(names, vec!["Flip", "Rotate", "Crop"]);
}

#[test]
fn monochrome_request_ends_in_shades_of_grey() {
    let params = ProcessParams {
        width: Some(2),
        height: Some(2),
        fit: Some(Fit::Crop),
        monochrome: Some(MonoChrome::RGB(0, 0, 0)),
        ..ProcessParams::default()
    };
    let mut image = Image::format(marked(8, 8), image::ImageFormat::Png);
    let times = process(&mut image, params);
    let names: Vec<&str> = times.iter().map(|time| time.name).collect();
    assert_eq!(names, vec!["Crop", "MonoChrome"]);
    assert_eq!(image.dimensions(), (2, 2));
    assert_eq!(image.color(), image::ColorType::L8);
    assert_eq!(image.as_bytes().len(), 4);
    assert_eq!(image.format, Some(image::ImageFormat::Png));
}

#[test]
fn noop_params_leave_the_image() {
    let mut image = Image::new(marked(5, 3));
    let before = image.inner.clone();
    let times = process(&mut image, ProcessParams::default());
    assert!(times.is_empty());
    assert_eq!(image.inner, before);
    assert_eq!(image.format, None);
}

#[test]
fn chain_holds_the_stages_in_their_order() {
    let processor = Processor {};
    let params = ProcessParams {
        monochrome: Some(MonoChrome::RGB(1, 2, 3)),
        width: Some(4),
        rotate: Some(Rotate::Whole(180)),
        flip: Some(Flip::Horizontal),
        blur: Some(9),
        ..ProcessParams::default()
    };
    assert_eq!(processor.chain(&params).len(), 4);
    assert_eq!(processor.blur(&params), Some(Blur { radius: 9 }));
    assert_eq!(processor.chain(&ProcessParams::default()).len(), 0);
    assert_eq!(processor.blur(&ProcessParams::default()), None);
    let mut image = Image::new(marked(8, 4));
    let times = process(&mut image, params);
    let names: Vec<&str> = times.iter().map(|time| time.name).collect();
    assert_eq!(names, vec!["Flip", "Rotate", "Resize", "MonoChrome"]);
    assert_eq!(image.dimensions(), (4, 2));
}

#[test]
fn blur_of_radius_zero_is_left_out() {
    let processor = Processor {};
    let params = ProcessParams { blur: Some(0), ..ProcessParams::default() };
    assert_eq!(processor.blur(&params), None);
    assert_eq!(processor.chain(&params).len(), 0);
    let mut image = Image::new(marked(3, 3));
    let before = image.as_bytes().to_vec();
    process(&mut image, params);
    assert_eq!(image.as_bytes(), &before[..]);
}

#[test]
fn crop_request_without_anchor_holds_the_centre() {
    let params = ProcessParams {
        width: Some(2),
        height: Some(2),
        fit: Some(Fit::Crop),
        ..ProcessParams::default()
    };
    let mut image = Image::new(marked(4, 4));
    process(&mut image, params);
    assert_eq!(image.dimensions(), (2, 2));
    assert_eq!(image.get_pixel(0, 0).0, [1, 1, 7, 255]);
    assert_eq!(image.get_pixel(1, 1).0, [2, 2, 7, 255]);
}

#[test]
fn rotation_comes_before_sizing() {
    let params = ProcessParams {
        width: Some(4),
        rotate: Some(Rotate::Whole(90)),
        ..ProcessParams::default()
    };
    let mut image = Image::new(marked(16, 8));
    process(&mut image, params);
    assert_eq!(image.dimensions(), (4, 8));
}

#[test]
fn format_is_kept() {
    let params = ProcessParams {
        flip: Some(Flip::Vertical),
        width: Some(2),
        ..ProcessParams::default()
    };
    let mut image = Image::format(marked(4, 4), image::ImageFormat::Png);
    process(&mut image, params);
    assert_eq!(image.format, Some(image::ImageFormat::Png));
    assert_eq!(image.dimensions(), (2, 2));
}

#[test]
fn can_process_tells_an_empty_picture() {
    let processor = Processor {};
    let image = Image::new(DynamicImage::ImageRgb8(RgbImage::new(0, 0)));
    let sizing = ProcessParams { width: Some(2), ..ProcessParams::default() };
    assert!(!processor.can_process(&image, &sizing));
    let flipping = ProcessParams { flip: Some(Flip::Horizontal), ..ProcessParams::default() };
    assert!(processor.can_process(&image, &flipping));
}
