//! Resolution of `noot://` media URLs to the built-in media assets.

use vstd::prelude::*;
use crate::subsystems::cryptography::hash::{sha256, sha256_digest};
use crate::utils::links::{parse_url, url_parse};
use crate::utils::text::{hex_lower, text_eq};

verus! {

/// A media asset: its MIME type, size in bytes, URL, whether it is locked
/// against changes, and the hash of its content.
#[derive(Debug)]
pub struct MediaAsset {
    pub mime: String,
    pub size: usize,
    pub url: String,
    pub locked: bool,
    pub meta_hash: String,
}

impl Clone for MediaAsset {
    fn clone(&self) -> (r: Self)
        ensures
            r == *self,
    {
        MediaAsset {
            mime: self.mime.clone(),
            size: self.size,
            url: self.url.clone(),
            locked: self.locked,
            meta_hash: self.meta_hash.clone(),
        }
    }
}

/// Why a media URL does not resolve.
#[derive(Debug, Clone, Copy, PartialEq, Eq, Structural)]
pub enum MediaError {
    MediaNotFound,
    MediaNotAvailable,
    MediaNotSupported,
}

/// The text that `String::from_utf8_lossy` makes of bytes.
pub uninterp spec fn utf8_lossy(bytes: Seq<u8>) -> Seq<char>;

/// Trusted: `String::from_utf8_lossy`.
#[verifier::external_body]
fn lossy_text(bytes: &[u8]) -> (r: String)
    ensures
        r@ == utf8_lossy(bytes@),
{
    String::from_utf8_lossy(bytes).to_string()
}

/// The hash recorded for built-in content: the SHA-256 of its text.
pub open spec fn content_hash(content: Seq<u8>) -> Seq<char> {
    hex_lower(sha256_digest(vstd::utf8::encode_utf8(utf8_lossy(content))))
}

impl MediaAsset {
    /// A built-in Markdown asset at `url` with the given content: locked,
    /// sized and hashed by its content.
    pub fn internal(url: &str, content: &[u8]) -> (r: MediaAsset)
        ensures
            r.mime@ == "text/markdown"@,
            r.size == content@.len(),
            r.url@ == url@,
            r.locked,
            r.meta_hash@ == content_hash(content@),
    {
        let text = lossy_text(content);
        MediaAsset {
            mime: String::from_str("text/markdown"),
            size: content.len(),
            url: String::from_str(url),
            locked: true,
            meta_hash: sha256(text.as_str()),
        }
    }
}

/// Resolves media URLs to the built-in landing and test pages.
#[derive(Debug)]
pub struct MediaResolver {
    pub landing: MediaAsset,
    pub test: MediaAsset,
    /// Earlier resolutions: the URL, its result, whether it was fetched, and
    /// when (seconds). Nothing fills it yet; it is only ever emptied.
    pub cache: Vec<(String, Result<MediaAsset, MediaError>, bool, u64)>,
}

/// What a URL with this scheme and path resolves to: on the `noot` scheme
/// the paths `/landing` and `/test` are the built-in pages and any other
/// path is not found; every other scheme (`http`, `https`, `file`, ...) is
/// not supported.
pub open spec fn spec_resolve(
    r: MediaResolver,
    scheme: Seq<char>,
    path: Seq<char>,
) -> Result<MediaAsset, MediaError> {
    if scheme == "noot"@ {
        if path == "/landing"@ {
            Ok(r.landing)
        } else if path == "/test"@ {
            Ok(r.test)
        } else {
            Err(MediaError::MediaNotFound)
        }
    } else {
        Err(MediaError::MediaNotSupported)
    }
}

impl MediaResolver {
    /// A resolver for the given built-in landing and test page contents.
    pub fn new(landing_content: &[u8], test_content: &[u8]) -> (r: Self)
        ensures
            r.landing.url@ == "noot://internal/landing"@,
            r.landing.size == landing_content@.len(),
            r.landing.meta_hash@ == content_hash(landing_content@),
            r.test.url@ == "noot://internal/test"@,
            r.test.size == test_content@.len(),
            r.test.meta_hash@ == content_hash(test_content@),
            r.landing.locked && r.test.locked,
            r.landing.mime@ == "text/markdown"@ && r.test.mime@ == "text/markdown"@,
            r.cache@.len() == 0,
    {
        MediaResolver {
            landing: MediaAsset::internal("noot://internal/landing", landing_content),
            test: MediaAsset::internal("noot://internal/test", test_content),
            cache: Vec::new(),
        }
    }

    /// Empties the cache; the built-in pages stay.
    pub fn purge_caches(&mut self)
        ensures
            final(self).cache@.len() == 0,
            final(self).landing == old(self).landing,
            final(self).test == old(self).test,
    {
        self.cache.clear();
    }

    /// Resolves a URL given by its scheme and path.
    pub fn resolve_parts(&self, scheme: &str, path: &str) -> (r: Result<MediaAsset, MediaError>)
        ensures
            r == spec_resolve(*self, scheme@, path@),
    {
        if text_eq(scheme, "noot") {
            if text_eq(path, "/landing") {
                Ok(self.landing.clone())
            } else if text_eq(path, "/test") {
                Ok(self.test.clone())
            } else {
                Err(MediaError::MediaNotFound)
            }
        } else {
            Err(MediaError::MediaNotSupported)
        }
    }

    /// Resolves a URL; it must parse.
    pub fn resolve(&mut self, url: &str) -> (r: Result<MediaAsset, MediaError>)
        requires
            url_parse(url@) is Some,
        ensures
            *final(self) == *old(self),
            r == spec_resolve(*old(self), url_parse(url@).unwrap().1, url_parse(url@).unwrap().2),
    {
        match parse_url(url) {
            Some(parts) => self.resolve_parts(parts.scheme.as_str(), parts.path.as_str()),
            None => {
                assert(false);
                Err(MediaError::MediaNotAvailable)
            },
        }
    }

    /// Resolves a URL when it parses, and gives `None` when it does not.
    pub fn try_resolve(&mut self, url: &str) -> (r: Option<Result<MediaAsset, MediaError>>)
        ensures
            *final(self) == *old(self),
            match r {
                Some(m) => url_parse(url@) matches Some(p) && m == spec_resolve(*old(self), p.1, p.2),
                None => url_parse(url@) is None,
            },
    {
        match parse_url(url) {
            Some(_) => Some(self.resolve(url)),
            None => None,
        }
    }
}

} // verus!
