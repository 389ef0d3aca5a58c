//! From the `url` query parameter to the URL to fetch and its cache file.

use crate::error::{ErrorKind, IconError, IconErrorView};
use crate::key::{cache_file_name, file_name_for};
use crate::text::{lossy_text, utf8_lossy};
use base64::Engine;
use vstd::prelude::*;

verus! {

/// The bytes that a text stands for in standard padded base64, as the
/// `STANDARD` engine of base64 decodes it; nothing where it refuses the text.
pub uninterp spec fn base64_standard_decoded(text: Seq<char>) -> Option<Seq<u8>>;

/// The text in which base64 says why it refuses a text: the `Display` form
/// of the error that its `STANDARD` engine gives for it.
pub uninterp spec fn base64_error_text(text: Seq<char>) -> Seq<char>;

/// The normalised text of the absolute URL that `Url::parse` of url reads
/// from a text; nothing where it refuses the text.
pub uninterp spec fn url_serialization(text: Seq<char>) -> Option<Seq<char>>;

/// Whether the URL that `Url::parse` reads from a text has a host, as
/// `Url::has_host` tells.
pub uninterp spec fn url_has_host(text: Seq<char>) -> bool;

/// The text in which url says why it refuses a text: the `Display` form of
/// the error that `Url::parse` gives for it.
pub uninterp spec fn url_error_text(text: Seq<char>) -> Seq<char>;

/// What the URL parser found in a text.
#[derive(Debug, Clone, PartialEq, Eq)]
pub struct ParsedUrl {
    /// The URL in normalised form.
    pub text: String,
    /// Whether it names a host.
    pub has_host: bool,
}

/// A request that was accepted: what to fetch and where it is cached.
#[derive(Debug, Clone, PartialEq, Eq)]
pub struct Target {
    /// The URL in normalised form.
    pub url: String,
    /// The name of its file in the cache directory.
    pub file_name: String,
}

/// The mathematical value of a [`Target`].
pub struct TargetView {
    pub url: Seq<char>,
    pub file_name: Seq<char>,
}

impl View for Target {
    type V = TargetView;

    open spec fn view(&self) -> TargetView {
        TargetView { url: self.url@, file_name: self.file_name@ }
    }
}

impl Target {
    /// Whether the file name is the one that belongs to the URL.
    pub open spec fn well_formed(&self) -> bool {
        self.file_name@ == cache_file_name(self.url@)
    }
}

/// `Engine::decode` of base64 on its `STANDARD` engine: the decoded bytes,
/// or, where the text is not standard padded base64, the crate's error in
/// its `Display` form.
#[verifier::external_body]
fn base64_decode(text: &str) -> (r: Result<Vec<u8>, String>)
    ensures
        match r {
            Ok(raw) => base64_standard_decoded(text@) == Some(raw@),
            Err(why) => base64_standard_decoded(text@) is None && why@ == base64_error_text(
                text@,
            ),
        },
{
    match base64::prelude::BASE64_STANDARD.decode(text) {
        Ok(raw) => Ok(raw),
        Err(e) => Err(e.to_string()),
    }
}

/// `Url::parse` of url, with `Url::has_host` and the conversion of the URL
/// into its text: the normalised URL and whether it has a host, or, where
/// the text is no absolute URL, the crate's error in its `Display` form.
#[verifier::external_body]
fn url_parse(text: &str) -> (r: Result<ParsedUrl, String>)
    ensures
        match r {
            Ok(parsed) => url_serialization(text@) == Some(parsed.text@) && parsed.has_host
                == url_has_host(text@),
            Err(why) => url_serialization(text@) is None && why@ == url_error_text(text@),
        },
{
    match url::Url::parse(text) {
        Ok(parsed) => Ok(ParsedUrl { has_host: parsed.has_host(), text: String::from(parsed) }),
        Err(e) => Err(e.to_string()),
    }
}

/// The target of a URL that parsed, or why it is refused.
pub open spec fn accepted(text: Seq<char>, has_host: bool) -> Result<TargetView, IconErrorView> {
    if has_host {
        Ok(TargetView { url: text, file_name: cache_file_name(text) })
    } else {
        Err(IconError::of_kind_view(ErrorKind::MissingHost))
    }
}

/// The target that a `url` parameter names, or why the request is refused:
/// with the decoder's or the parser's own text where they refuse it.
pub open spec fn resolved(param: Seq<char>) -> Result<TargetView, IconErrorView> {
    match base64_standard_decoded(param) {
        None => Err(IconErrorView { kind: ErrorKind::Decode, text: base64_error_text(param) }),
        Some(raw) => {
            let text = utf8_lossy(raw);
            match url_serialization(text) {
                None => Err(IconErrorView { kind: ErrorKind::UrlParse, text: url_error_text(text) }),
                Some(url) => accepted(url, url_has_host(text)),
            }
        },
    }
}

/// Decodes the `url` parameter. The error carries the decoder's own text.
pub fn decode_param(param: &str) -> (r: Result<Vec<u8>, IconError>)
    ensures
        match r {
            Ok(raw) => base64_standard_decoded(param@) == Some(raw@),
            Err(e) => base64_standard_decoded(param@) is None && e@ == (IconErrorView {
                kind: ErrorKind::Decode,
                text: base64_error_text(param@),
            }),
        },
{
    match base64_decode(param) {
        Ok(raw) => Ok(raw),
        Err(why) => Err(IconError::new(ErrorKind::Decode, why)),
    }
}

/// Parses a text as an absolute URL. The error carries the parser's own
/// text.
pub fn parse_url(text: &str) -> (r: Result<ParsedUrl, IconError>)
    ensures
        match r {
            Ok(parsed) => url_serialization(text@) == Some(parsed.text@) && parsed.has_host
                == url_has_host(text@),
            Err(e) => url_serialization(text@) is None && e@ == (IconErrorView {
                kind: ErrorKind::UrlParse,
                text: url_error_text(text@),
            }),
        },
{
    match url_parse(text) {
        Ok(parsed) => Ok(parsed),
        Err(why) => Err(IconError::new(ErrorKind::UrlParse, why)),
    }
}

/// Accepts a parsed URL that names a host, and derives its cache file.
pub fn accept(parsed: ParsedUrl) -> (r: Result<Target, IconError>)
    ensures
        match (r, accepted(parsed.text@, parsed.has_host)) {
            (Ok(target), Ok(want)) => target@ == want,
            (Err(e), Err(want)) => e@ == want,
            _ => false,
        },
        r is Ok ==> r->Ok_0.well_formed() && r->Ok_0.file_name@.len() == 68,
{
    if parsed.has_host {
        let file_name = file_name_for(parsed.text.as_str());
        Ok(Target { url: parsed.text, file_name })
    } else {
        Err(IconError::of_kind(ErrorKind::MissingHost))
    }
}

/// Decodes the `url` parameter, reads the bytes as text (invalid UTF-8 is
/// replaced, not refused), parses the text as an absolute URL with a host,
/// and derives the cache file of the normalised URL.
pub fn resolve(param: &str) -> (r: Result<Target, IconError>)
    ensures
        match (r, resolved(param@)) {
            (Ok(target), Ok(want)) => target@ == want,
            (Err(e), Err(want)) => e@ == want,
            _ => false,
        },
        r is Ok ==> r->Ok_0.well_formed() && r->Ok_0.file_name@.len() == 68,
{
    let raw = match decode_param(param) {
        Ok(raw) => raw,
        Err(e) => { return Err(e); },
    };
    let text = lossy_text(raw.as_slice());
    let parsed = match parse_url(text.as_str()) {
        Ok(parsed) => parsed,
        Err(e) => { return Err(e); },
    };
    accept(parsed)
}

} // verus!
