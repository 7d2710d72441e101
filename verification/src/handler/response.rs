//! What goes back to the client: the picture, and the headers that go with it.

use image::ImageFormat;
use std::time::Duration;
use vstd::prelude::*;
use vstd::string::StringExecFns;

use crate::handler::query::text::string_of;

verus! {

/// The encodings that a content type is announced for.
#[derive(Debug, PartialEq, Eq, Clone, Copy, Structural)]
pub enum ContentKind {
    Png,
    Jpeg,
    WebP,
    /// Any other encoding.
    Other,
}

/// The kind of an encoding: which of PNG, JPEG and WebP an `ImageFormat` is,
/// if any.
pub uninterp spec fn kind_of(format: ImageFormat) -> ContentKind;

/// The whole seconds of a span of time: what `Duration::as_secs` returns.
pub uninterp spec fn whole_seconds(span: Duration) -> u64;

/// Tells the variants of `ImageFormat` apart, as far as a content type goes
/// by them.
#[verifier::external_body]
fn content_kind(format: ImageFormat) -> (kind: ContentKind)
    ensures
        kind == kind_of(format),
{
    match format {
        ImageFormat::Png => ContentKind::Png,
        ImageFormat::Jpeg => ContentKind::Jpeg,
        ImageFormat::WebP => ContentKind::WebP,
        _ => ContentKind::Other,
    }
}

/// `Duration::as_secs`: the whole seconds of a span of time.
#[verifier::external_body]
fn seconds(span: &Duration) -> (whole: u64)
    ensures
        whole == whole_seconds(*span),
{
    span.as_secs()
}

/// The character that writes a digit.
pub open spec fn digit(d: nat) -> char
    recommends
        d < 10,
{
    (0x30 + d) as char
}

/// A number in decimal notation, without leading zeros.
pub open spec fn decimal(n: nat) -> Seq<char>
    decreases n,
{
    if n < 10 {
        seq![digit(n)]
    } else {
        decimal(n / 10).push(digit(n % 10))
    }
}

/// Writes a number in decimal notation at the end of `out`.
fn write_decimal(n: u64, out: &mut Vec<char>)
    ensures
        final(out)@ == old(out)@ + decimal(n as nat),
    decreases n,
{
    if n >= 10 {
        write_decimal(n / 10, out);
    }
    let d: u8 = (n % 10) as u8;
    out.push((0x30 + d) as char);
    assert(out@ =~= old(out)@ + decimal(n as nat));
}

/// A number in decimal notation.
pub fn to_decimal(n: u64) -> (text: String)
    ensures
        text@ == decimal(n as nat),
{
    let mut digits: Vec<char> = Vec::new();
    write_decimal(n, &mut digits);
    assert(digits@ =~= decimal(n as nat));
    string_of(&digits)
}

/// A header: its name and its value.
pub struct Header {
    pub name: String,
    pub value: String,
}

impl Header {
    /// The header of the given name and value.
    fn of(name: &str, value: String) -> (header: Header)
        ensures
            header.name@ == name@,
            header.value@ == value@,
    {
        Header { name: String::from_str(name), value }
    }
}

/// The content type that is announced for a kind of encoding, if one is.
pub open spec fn content_type(kind: ContentKind) -> Option<Seq<char>> {
    match kind {
        ContentKind::Png => Some("image/png"@),
        ContentKind::Jpeg => Some("image/jpeg"@),
        ContentKind::WebP => Some("image/webp"@),
        ContentKind::Other => None,
    }
}

/// The names and values of a list of headers, in its order.
pub open spec fn header_texts(headers: Seq<Header>) -> Seq<(Seq<char>, Seq<char>)> {
    Seq::new(headers.len(), |i: int| (headers[i].name@, headers[i].value@))
}

/// The status with which a picture goes back.
pub const OK: u16 = 200;

/// A picture on its way to the client.
pub struct Response {
    /// The encoded picture, and its encoding where that is known.
    pub image: (Vec<u8>, Option<ImageFormat>),
    /// For how long the picture may be kept by caches.
    pub cache_time: Duration,
}

impl Response {
    /// The headers that go with the picture whatever its encoding: that the
    /// answer varies with what the client accepts, that the picture is shown
    /// in line, for how many seconds any cache may keep it, and its length
    /// in bytes.
    pub open spec fn common_headers(&self) -> Seq<(Seq<char>, Seq<char>)> {
        seq![
            ("Vary"@, "Accept"@),
            ("Content-Disposition"@, "inline"@),
            (
                "Cache-Control"@,
                "public, max-age="@ + decimal(whole_seconds(self.cache_time) as nat),
            ),
            ("Content-Length"@, decimal(self.image.0@.len())),
        ]
    }

    /// The headers that go with the picture: the common ones, and the
    /// content type where the encoding is one that has a content type.
    pub open spec fn spec_headers(&self) -> Seq<(Seq<char>, Seq<char>)> {
        match self.image.1 {
            Some(format) => match content_type(kind_of(format)) {
                Some(announced) => self.common_headers().push(("Content-Type"@, announced)),
                None => self.common_headers(),
            },
            None => self.common_headers(),
        }
    }

    /// The status with which the picture goes back: success.
    pub fn status(&self) -> (status: u16)
        ensures
            status == OK,
    {
        OK
    }

    /// The headers that go with the picture.
    pub fn headers(&self) -> (headers: Vec<Header>)
        ensures
            header_texts(headers@) == self.spec_headers(),
    {
        let mut headers: Vec<Header> = Vec::new();
        headers.push(Header::of("Vary", String::from_str("Accept")));
        headers.push(Header::of("Content-Disposition", String::from_str("inline")));
        let mut cache_control = String::from_str("public, max-age=");
        cache_control.append(to_decimal(seconds(&self.cache_time)).as_str());
        headers.push(Header::of("Cache-Control", cache_control));
        headers.push(Header::of("Content-Length", to_decimal(self.image.0.len() as u64)));
        assert(header_texts(headers@) =~= self.common_headers());
        if let Some(format) = self.image.1 {
            match content_kind(format) {
                ContentKind::Png => {
                    headers.push(Header::of("Content-Type", String::from_str("image/png")));
                },
                ContentKind::Jpeg => {
                    headers.push(Header::of("Content-Type", String::from_str("image/jpeg")));
                },
                ContentKind::WebP => {
                    headers.push(Header::of("Content-Type", String::from_str("image/webp")));
                },
                ContentKind::Other => {},
            }
        }
        assert(header_texts(headers@) =~= self.spec_headers());
        headers
    }
}

} // verus!
