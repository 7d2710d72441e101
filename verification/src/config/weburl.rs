//! The address of an origin.

use url::ParseError;
use vstd::prelude::*;

verus! {

#[verifier::external_type_specification]
#[verifier::external_body]
pub struct ExUrl(url::Url);

#[verifier::external_type_specification]
#[verifier::external_body]
pub struct ExParseError(url::ParseError);

/// The text of an address: what `url::Url::as_str` returns.
pub uninterp spec fn url_text(address: url::Url) -> Seq<char>;

/// What `url::Url::parse` makes of a text: the text of the address that it
/// reads, or the reason for which it reads none.
pub uninterp spec fn parsed(input: Seq<char>) -> Result<Seq<char>, ParseError>;

/// `url::Url::parse`: reads an absolute address.
#[verifier::external_body]
fn parse(input: &str) -> (address: Result<url::Url, ParseError>)
    ensures
        match address {
            Ok(read) => parsed(input@) == Ok::<Seq<char>, ParseError>(url_text(read)),
            Err(reason) => parsed(input@) == Err::<Seq<char>, ParseError>(reason),
        },
{
    url::Url::parse(input)
}

/// An absolute address, such as that of an origin.
#[derive(Debug, PartialEq)]
pub struct WebUrl(pub url::Url);

impl View for WebUrl {
    type V = Seq<char>;

    /// The text of the address.
    open spec fn view(&self) -> Seq<char> {
        url_text(self.0)
    }
}

impl WebUrl {
    /// Reads an absolute address. A text that is none is rejected with the
    /// reason.
    pub fn new(url: &str) -> (address: Result<WebUrl, ParseError>)
        ensures
            match address {
                Ok(read) => parsed(url@) == Ok::<Seq<char>, ParseError>(read@),
                Err(reason) => parsed(url@) == Err::<Seq<char>, ParseError>(reason),
            },
    {
        match parse(url) {
            Ok(read) => Ok(WebUrl(read)),
            Err(reason) => Err(reason),
        }
    }
}

impl std::ops::Deref for WebUrl {
    type Target = url::Url;

    fn deref(&self) -> (address: &url::Url)
        ensures
            *address == self.0,
    {
        &self.0
    }
}

} // verus!
