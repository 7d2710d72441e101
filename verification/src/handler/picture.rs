//! The way of a fetched picture: from its bytes to an image, and from the
//! image to the bytes that go back.

use image::DynamicImage;
use image::ImageFormat;
use std::time::Duration;
use vstd::prelude::*;

use crate::handler::query::params::ProcessParams;
use crate::handler::response::ContentKind;
use crate::handler::response::Response;
use crate::handler::response::kind_of;
use crate::processor::error::Error;
use crate::processor::img::Image;

verus! {

/// The encoding that `image::guess_format` makes out from the first bytes of
/// a picture, if it makes out any.
pub uninterp spec fn guessed_format(content: Seq<u8>) -> Option<ImageFormat>;

/// `image::guess_format`: the encoding of a picture, told by the bytes that
/// it starts with.
#[verifier::external_body]
fn guess(content: &Vec<u8>) -> (format: Option<ImageFormat>)
    ensures
        format == guessed_format(content@),
{
    image::guess_format(content).ok()
}

/// `image::load_from_memory`: decodes a picture in the encoding that it
/// makes out, or decodes none.
#[verifier::external_body]
fn load(content: &Vec<u8>) -> (picture: Option<DynamicImage>) {
    image::load_from_memory(content).ok()
}

/// What `DynamicImage::write_to` makes of a picture and an encoding: the
/// bytes of the picture in that encoding, or nothing where the encoder fails.
pub uninterp spec fn written(picture: DynamicImage, format: ImageFormat) -> Option<Seq<u8>>;

/// `DynamicImage::write_to`, into a vector: the picture in the given
/// encoding, or nothing where the encoder fails.
#[verifier::external_body]
fn write(picture: &DynamicImage, format: ImageFormat) -> (bytes: Option<Vec<u8>>)
    ensures
        match bytes {
            Some(encoding) => written(*picture, format) == Some(encoding@),
            None => written(*picture, format) is None,
        },
{
    let mut buffer = std::io::Cursor::new(Vec::new());
    picture.write_to(&mut buffer, format).ok()?;
    Some(buffer.into_inner())
}

/// `ImageFormat::Jpeg`: the JPEG encoding.
#[verifier::external_body]
fn jpeg() -> (format: ImageFormat)
    ensures
        kind_of(format) == ContentKind::Jpeg,
{
    ImageFormat::Jpeg
}

/// The status that reports a picture that could not be decoded.
pub const UNPROCESSABLE_ENTITY: u16 = 422;

/// The status that reports a failure on the service's side.
pub const INTERNAL_SERVER_ERROR: u16 = 500;

/// Why no picture goes back.
#[derive(Debug, PartialEq, Eq)]
pub enum Failure {
    /// The bytes fetched are no picture in a known encoding.
    Decode,
    /// A stage failed.
    Process(Error),
    /// The picture could not be encoded.
    Encode,
}

impl Failure {
    /// The status that reports the failure to the client. That the bytes are
    /// no picture is the client's matter; the rest is the service's.
    pub open spec fn spec_status(&self) -> u16 {
        match self {
            Failure::Decode => UNPROCESSABLE_ENTITY,
            Failure::Process(_) => INTERNAL_SERVER_ERROR,
            Failure::Encode => INTERNAL_SERVER_ERROR,
        }
    }

    /// The status that reports the failure to the client.
    pub fn status(&self) -> (status: u16)
        ensures
            status == self.spec_status(),
    {
        match self {
            Failure::Decode => UNPROCESSABLE_ENTITY,
            Failure::Process(_) => INTERNAL_SERVER_ERROR,
            Failure::Encode => INTERNAL_SERVER_ERROR,
        }
    }
}

/// What is made of the bytes fetched.
pub enum Opened {
    /// Nothing is asked of the picture: the bytes go back as they came.
    PassThrough(Vec<u8>),
    /// The decoded picture, for the stages to work on.
    Decoded(Image),
}

/// Decides what a picture read from `content` is worth once decoding has
/// been tried: an image in the encoding told by its first bytes, or a
/// failure to decode.
pub fn decoded(format: Option<ImageFormat>, picture: Option<DynamicImage>) -> (image: Result<
    Image,
    Failure,
>)
    ensures
        match image {
            Ok(image) => picture == Some(image.inner) && image.format == format,
            Err(failure) => picture is None && failure == Failure::Decode,
        },
{
    match picture {
        Some(inner) => match format {
            Some(format) => Ok(Image::format(inner, format)),
            None => Ok(Image::new(inner)),
        },
        None => Err(Failure::Decode),
    }
}

/// Takes up the bytes fetched for a request. A request that asks for
/// nothing gets them back untouched, whatever they are. For any other
/// request they are decoded; the image is marked with the encoding that
/// their first bytes tell.
pub fn open(content: Vec<u8>, params: &ProcessParams) -> (opened: Result<Opened, Failure>)
    ensures
        params.spec_is_noop() ==> (opened matches Ok(Opened::PassThrough(bytes)) && bytes
            == content),
        !params.spec_is_noop() ==> match opened {
            Ok(Opened::Decoded(image)) => image.format == guessed_format(content@),
            Ok(Opened::PassThrough(_)) => false,
            Err(failure) => failure == Failure::Decode,
        },
{
    if params.is_noop() {
        return Ok(Opened::PassThrough(content));
    }
    let format = guess(&content);
    let picture = load(&content);
    match decoded(format, picture) {
        Ok(image) => Ok(Opened::Decoded(image)),
        Err(failure) => Err(failure),
    }
}

/// The answer that hands the bytes fetched back as they came.
pub fn pass_through(content: Vec<u8>, cache_time: Duration) -> (response: Response)
    ensures
        response.image.0 == content,
        response.image.1 is None,
        response.cache_time == cache_time,
{
    Response { image: (content, None), cache_time }
}

/// Whether `format` is the encoding that an image marked with `given` goes
/// back in: the encoding that it came in, or JPEG where that is not known.
pub open spec fn goes_back_as(given: Option<ImageFormat>, format: ImageFormat) -> bool {
    match given {
        Some(known) => format == known,
        None => kind_of(format) == ContentKind::Jpeg,
    }
}

/// Decides what goes back once encoding has been tried: the bytes, under the
/// encoding that the image came in, or a failure to encode.
pub fn encoded(image: &Image, bytes: Option<Vec<u8>>, cache_time: Duration) -> (response: Result<
    Response,
    Failure,
>)
    ensures
        match response {
            Ok(response) => bytes == Some(response.image.0) && response.image.1 == image.format
                && response.cache_time == cache_time,
            Err(failure) => bytes is None && failure == Failure::Encode,
        },
{
    match bytes {
        Some(bytes) => Ok(Response { image: (bytes, image.format), cache_time }),
        None => Err(Failure::Encode),
    }
}

/// The answer that carries the image: the picture in the encoding that it
/// came in, or in JPEG where that is not known. It fails where the encoder
/// does, and only there.
pub fn respond(image: &Image, cache_time: Duration) -> (response: Result<Response, Failure>)
    ensures
        exists|format: ImageFormat|
            {
                &&& #[trigger] goes_back_as(image.format, format)
                &&& match response {
                    Ok(response) => {
                        &&& written(image.inner, format) == Some(response.image.0@)
                        &&& response.image.1 == image.format
                        &&& response.cache_time == cache_time
                    },
                    Err(failure) => {
                        &&& failure == Failure::Encode
                        &&& written(image.inner, format) is None
                    },
                }
            },
{
    let format = match image.format {
        Some(format) => format,
        None => jpeg(),
    };
    let response = encoded(image, write(&image.inner, format), cache_time);
    assert(goes_back_as(image.format, format));
    response
}

} // verus!
