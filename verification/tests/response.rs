use darkroom::handler::picture::decoded;
use darkroom::handler::picture::encoded;
use darkroom::handler::picture::open;
use darkroom::handler::picture::pass_through;
use darkroom::handler::picture::respond;
use darkroom::handler::picture::Failure;
use darkroom::handler::picture::Opened;
use darkroom::handler::query::Flip;
use darkroom::handler::query::ProcessParams;
use darkroom::handler::response::to_decimal;
use darkroom::handler::response::Header;
use darkroom::handler::response::Response;
use darkroom::processor::error::Error;
use darkroom::processor::Image;
use darkroom::storage::errors::Error as FetchError;
use darkroom::storage::webfolder::address;
use darkroom::storage::webfolder::hands_out;
use darkroom::storage::webfolder::refusal;
use image::DynamicImage;
use image::ImageFormat;
use image::Rgb;
use image::RgbImage;
use std::time::Duration;

fn get<'a>(headers: &'a [Header], name: &str) -> Option<&'a str> {
    headers
        .iter()
        .find(|header| header.name == name)
        .map(|header| header.value.as_str())
}

#[test]
fn test_into_response() {
    let response = Response {
        image: (vec![1, 2, 3], Some(ImageFormat::Jpeg)),
        cache_time: Duration::from_secs(3600),
    };

    let headers = response.headers();
    assert_eq!(response.status(), 200);
    assert_eq!(get(&headers, "Content-Type").unwrap(), "image/jpeg");
    assert_eq!(get(&headers, "Content-Length").unwrap(), "3");
    assert_eq!(get(&headers, "Cache-Control").unwrap(), "public, max-age=3600");
}

#[test]
fn test_into_response_content_types() {
    let testcases = vec![
        (ImageFormat::Png, Some("image/png")),
        (ImageFormat::Jpeg, Some("image/jpeg")),
        (ImageFormat::WebP, Some("image/webp")),
        // Catch all
        (ImageFormat::Farbfeld, None),
    ];

    for testcase in testcases {
        let response = Response {
            image: (vec![1, 2, 3], Some(testcase.0)),
            cache_time: Duration::from_secs(3600),
        };

        let headers = response.headers();
        assert_eq!(get(&headers, "Content-Type"), testcase.1);
    }
}

#[test]
fn headers_come_in_a_fixed_order() {
    let response = Response {
        image: (vec![0; 1234], Some(ImageFormat::Png)),
        cache_time: Duration::from_millis(61_999),
    };
    let headers: Vec<(String, String)> = response
        .headers()
        .into_iter()
        .map(|header| (header.name, header.value))
        .collect();
    let expected: Vec<(String, String)> = [
        ("Vary", "Accept"),
        ("Content-Disposition", "inline"),
        ("Cache-Control", "public, max-age=61"),
        ("Content-Length", "1234"),
        ("Content-Type", "image/png"),
    ]
    .iter()
    .map(|(name, value)| (name.to_string(), value.to_string()))
    .collect();
    assert_eq!(headers, expected);
}

#[test]
fn headers_without_a_format_announce_no_type() {
    let response = Response { image: (Vec::new(), None), cache_time: Duration::from_secs(0) };
    let headers = response.headers();
    assert_eq!(headers.len(), 4);
    assert_eq!(get(&headers, "Content-Type"), None);
    assert_eq!(get(&headers, "Content-Length"), Some("0"));
    assert_eq!(get(&headers, "Cache-Control"), Some("public, max-age=0"));
}

#[test]
fn decimal_writes_every_digit() {
    assert_eq!(to_decimal(0), "0");
    assert_eq!(to_decimal(7), "7");
    assert_eq!(to_decimal(10), "10");
    assert_eq!(to_decimal(1_234_567_890), "1234567890");
    assert_eq!(to_decimal(u64::MAX), "18446744073709551615");
}

#[test]
fn open_hands_back_what_nothing_is_asked_of() {
    let content = vec![1, 2, 3];
    match open(content.clone(), &ProcessParams::default()) {
        Ok(Opened::PassThrough(bytes)) => assert_eq!(bytes, content),
        _ => panic!("the bytes should have been handed back"),
    }
    let response = pass_through(content.clone(), Duration::from_secs(300));
    assert_eq!(response.image, (content, None));
    assert_eq!(response.cache_time, Duration::from_secs(300));
}

#[test]
fn open_fails_on_what_is_no_picture() {
    let params = ProcessParams { flip: Some(Flip::Horizontal), ..ProcessParams::default() };
    match open(vec![1, 2, 3], &params) {
        Err(failure) => {
            assert_eq!(failure, Failure::Decode);
            assert_eq!(failure.status(), 422);
        }
        _ => panic!("the bytes should not have been decoded"),
    }
    assert!(open(Vec::new(), &params).is_err());
}

#[test]
fn respond_and_open_go_round() {
    let picture = DynamicImage::ImageRgb8(RgbImage::from_fn(4, 3, |x, y| {
        Rgb([x as u8 * 60, y as u8 * 80, 9])
    }));
    let image = Image::format(picture.clone(), ImageFormat::Png);
    let response = respond(&image, Duration::from_secs(5)).unwrap();
    assert_eq!(response.image.1, Some(ImageFormat::Png));
    assert_eq!(response.cache_time, Duration::from_secs(5));
    assert_eq!(&response.image.0[1..4], b"PNG");

    let params = ProcessParams { flip: Some(Flip::Horizontal), ..ProcessParams::default() };
    match open(response.image.0, &params) {
        Ok(Opened::Decoded(read)) => {
            assert_eq!(read.format, Some(ImageFormat::Png));
            assert_eq!(read.inner, picture);
        }
        _ => panic!("the picture should have been decoded"),
    }
}

#[test]
fn respond_falls_back_to_jpeg() {
    let image = Image::new(DynamicImage::new_rgb8(4, 3));
    let response = respond(&image, Duration::from_secs(5)).unwrap();
    assert_eq!(response.image.1, None);
    assert_eq!(image::guess_format(&response.image.0).unwrap(), ImageFormat::Jpeg);
    assert_eq!(&response.image.0[0..2], &[0xFF, 0xD8]);
}

#[test]
fn respond_fails_where_the_encoder_does() {
    let image = Image::new(DynamicImage::new_rgb8(0, 0));
    let failure = respond(&image, Duration::from_secs(5)).err().unwrap();
    assert_eq!(failure, Failure::Encode);
    assert_eq!(failure.status(), 500);
}

#[test]
fn decoded_and_encoded_go_by_what_came_back() {
    assert_eq!(decoded(Some(ImageFormat::Png), None).err(), Some(Failure::Decode));
    let image = decoded(Some(ImageFormat::Gif), Some(DynamicImage::new_luma8(1, 2))).unwrap();
    assert_eq!(image.format, Some(ImageFormat::Gif));
    assert_eq!(image.inner, DynamicImage::new_luma8(1, 2));
    let bare = decoded(None, Some(DynamicImage::new_luma8(1, 2))).unwrap();
    assert_eq!(bare.format, None);

    assert_eq!(encoded(&image, None, Duration::from_secs(1)).err(), Some(Failure::Encode));
    let response = encoded(&image, Some(vec![4, 5]), Duration::from_secs(1)).unwrap();
    assert_eq!(response.image, (vec![4, 5], Some(ImageFormat::Gif)));
    assert_eq!(response.cache_time, Duration::from_secs(1));
}

#[test]
fn failures_have_a_status() {
    assert_eq!(Failure::Decode.status(), 422);
    assert_eq!(Failure::Process(Error::GPUError).status(), 500);
    assert_eq!(Failure::Process(Error::Generic("x".to_string())).status(), 500);
    assert_eq!(Failure::Encode.status(), 500);
}

#[test]
fn fetch_errors_have_a_status() {
    let upstream = FetchError::Upstream {
        status_code: Some(401),
        message: "Unauthorized".to_string(),
    };
    assert!(upstream.is_reportable());
    assert_eq!(upstream.status_code(), 401);
    assert_eq!(upstream.message(), "upstream error: Unauthorized");

    let silent = FetchError::Upstream { status_code: None, message: String::new() };
    assert_eq!(silent.status_code(), 500);

    let missing = FetchError::ObjectNotFound { path: "a/b.jpg".to_string() };
    assert_eq!(missing.status_code(), 404);
    assert_eq!(missing.message(), "object not found at: a/b.jpg");

    let failed = FetchError::Reqwest { status: Some(503), message: "down".to_string() };
    assert_eq!(failed.status_code(), 503);
    assert_eq!(failed.message(), "reqwest error: down");
    let lost = FetchError::Reqwest { status: None, message: "lost".to_string() };
    assert_eq!(lost.status_code(), 500);
}

#[test]
fn fetch_errors_with_no_status_code_are_not_reportable() {
    for code in [0, 99, 1000, u16::MAX] {
        let upstream = FetchError::Upstream { status_code: Some(code), message: String::new() };
        assert!(!upstream.is_reportable());
        let failed = FetchError::Reqwest { status: Some(code), message: String::new() };
        assert!(!failed.is_reportable());
    }
    for code in [100, 200, 999] {
        let upstream = FetchError::Upstream { status_code: Some(code), message: String::new() };
        assert!(upstream.is_reportable());
    }
}

#[test]
fn address_goes_below_the_prefix() {
    assert_eq!(
        address("https", "example.com", Some("/assets"), "a/b.jpg"),
        "https://example.com/assets/a/b.jpg"
    );
    assert_eq!(address("http", "example.com", None, "/a.png"), "http://example.com/a.png");
    assert_eq!(address("", "", Some(""), ""), ":///");
}

#[test]
fn origin_hands_out_with_status_ok_only() {
    assert!(hands_out(200));
    for status in [0, 199, 201, 204, 304, 404, 500] {
        assert!(!hands_out(status));
    }
    assert_eq!(
        refusal(401, "Unauthorized".to_string()),
        FetchError::Upstream { status_code: Some(401), message: "Unauthorized".to_string() }
    );
    assert_eq!(refusal(401, "Unauthorized".to_string()).status_code(), 401);
}
