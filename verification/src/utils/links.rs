//! Parsing of URLs into the parts the library reads.

use vstd::prelude::*;

verus! {

/// The serialization, scheme and path of the URL that `url::Url::parse`
/// makes of a text; `None` when the text is not a URL.
pub uninterp spec fn url_parse(s: Seq<char>) -> Option<(Seq<char>, Seq<char>, Seq<char>)>;

/// The parts of a parsed URL.
#[derive(Debug)]
pub struct UrlParts {
    /// The URL as `Url::to_string` writes it.
    pub serialization: String,
    /// The scheme, as `Url::scheme` gives it.
    pub scheme: String,
    /// The path, as `Url::path` gives it.
    pub path: String,
}

/// The view of parsed parts.
pub open spec fn parts_view(u: UrlParts) -> (Seq<char>, Seq<char>, Seq<char>) {
    (u.serialization@, u.scheme@, u.path@)
}

/// Trusted: `url::Url::parse`, then `to_string`, `scheme` and `path` of the
/// result.
#[verifier::external_body]
pub(crate) fn parse_url(s: &str) -> (r: Option<UrlParts>)
    ensures
        match r {
            Some(u) => url_parse(s@) == Some(parts_view(u)),
            None => url_parse(s@) is None,
        },
{
    match url::Url::parse(s) {
        Ok(u) => Some(
            UrlParts {
                serialization: u.to_string(),
                scheme: u.scheme().to_string(),
                path: u.path().to_string(),
            },
        ),
        Err(_) => None,
    }
}

} // verus!
