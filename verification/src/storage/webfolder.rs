//! An origin that serves pictures over HTTP, below a base address.

use vstd::prelude::*;
use vstd::string::StringExecFns;

use crate::storage::errors::Error;

verus! {

/// The status with which the origin hands out a picture.
pub const OK: u16 = 200;

/// The address at which the origin has the object of a path: the scheme and
/// the host of the base address, then the path, below the prefix and a slash
/// where there is a prefix.
pub open spec fn spec_address(
    scheme: Seq<char>,
    host: Seq<char>,
    path_prefix: Option<Seq<char>>,
    path: Seq<char>,
) -> Seq<char> {
    scheme + "://"@ + host + match path_prefix {
        Some(prefix) => prefix + "/"@ + path,
        None => path,
    }
}

/// The address at which the origin has the object of a path.
pub fn address(scheme: &str, host: &str, path_prefix: Option<&str>, path: &str) -> (url: String)
    ensures
        url@ == spec_address(
            scheme@,
            host@,
            match path_prefix {
                Some(prefix) => Some(prefix@),
                None => None,
            },
            path@,
        ),
{
    let mut url = String::from_str(scheme);
    url.append("://");
    url.append(host);
    match path_prefix {
        Some(prefix) => {
            url.append(prefix);
            url.append("/");
            url.append(path);
            assert(url@ =~= scheme@ + "://"@ + host@ + (prefix@ + "/"@ + path@));
        },
        None => {
            url.append(path);
        },
    }
    url
}

/// Whether an answer of the origin hands out the picture: its status is
/// [`OK`].
pub fn hands_out(status: u16) -> (yes: bool)
    ensures
        yes == (status == OK),
{
    status == OK
}

/// The failure that an answer of the origin with any other status is: it
/// holds the status and, as its description, what the origin said.
pub fn refusal(status: u16, said: String) -> (error: Error)
    ensures
        error matches Error::Upstream { status_code, message } && status_code == Some(status)
            && message == said,
{
    Error::Upstream { status_code: Some(status), message: said }
}

} // verus!
