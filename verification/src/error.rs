//! The one error type of the library: what went wrong, and a text for it.

use crate::artifact::CodecError;
use vstd::prelude::*;

verus! {

/// What went wrong while serving one request.
#[derive(Debug, Clone, Copy, PartialEq, Eq, Structural)]
pub enum ErrorKind {
    /// The `url` parameter is not standard padded base64.
    Decode,
    /// The decoded text is not an absolute URL.
    UrlParse,
    /// The URL names no host.
    MissingHost,
    /// The cache directory could not be created.
    DirectoryCreationFailed,
    /// The cache file exists and could not be read.
    ReadFailed,
    /// The cache file does not hold an artifact.
    DeserializeFailed(CodecError),
    /// The origin could not be reached, or its answer could not be read.
    FetchFailed,
    /// The origin answered with a status outside 200..=299.
    FetchStatus(u16),
    /// The origin's answer has no `content-type` header.
    MissingContentType,
    /// The artifact was fetched and could not be written.
    WriteFailed,
    /// The artifact's MIME string cannot be sent as a header value.
    UnsendableMime,
    /// The driver reported an event that the lookup was not waiting for.
    UnexpectedEvent,
}

/// An error of the library, with the text that a reply shows for it.
#[derive(Debug, Clone, PartialEq, Eq)]
pub struct IconError {
    pub kind: ErrorKind,
    pub text: String,
}

/// The mathematical value of an [`IconError`].
pub struct IconErrorView {
    pub kind: ErrorKind,
    pub text: Seq<char>,
}

impl View for IconError {
    type V = IconErrorView;

    open spec fn view(&self) -> IconErrorView {
        IconErrorView { kind: self.kind, text: self.text@ }
    }
}

/// The text of an error whose kind says all there is to say.
pub open spec fn fixed_text(kind: ErrorKind) -> Seq<char> {
    match kind {
        ErrorKind::Decode => "invalid base64"@,
        ErrorKind::UrlParse => "invalid URL"@,
        ErrorKind::MissingHost => "empty host"@,
        ErrorKind::DirectoryCreationFailed => "cache directory could not be created"@,
        ErrorKind::ReadFailed => "cache file could not be read"@,
        ErrorKind::DeserializeFailed(CodecError::Truncated) => "cache file is truncated"@,
        ErrorKind::DeserializeFailed(CodecError::InvalidText) => "cache file holds an invalid MIME string"@,
        ErrorKind::FetchFailed => "fetch failed"@,
        ErrorKind::FetchStatus(_) => "HTTP status error"@,
        ErrorKind::MissingContentType => "no content-type"@,
        ErrorKind::WriteFailed => "cache file could not be written"@,
        ErrorKind::UnsendableMime => "MIME string cannot be sent as a header"@,
        ErrorKind::UnexpectedEvent => "unexpected event"@,
    }
}

impl IconError {
    /// The value of the error that has the fixed text of its kind.
    pub open spec fn of_kind_view(kind: ErrorKind) -> IconErrorView {
        IconErrorView { kind, text: fixed_text(kind) }
    }

    /// An error with a text of the caller's.
    pub fn new(kind: ErrorKind, text: String) -> (e: IconError)
        ensures
            e@ == (IconErrorView { kind, text: text@ }),
    {
        IconError { kind, text }
    }

    /// An error with the fixed text of its kind.
    pub fn of_kind(kind: ErrorKind) -> (e: IconError)
        ensures
            e@ == Self::of_kind_view(kind),
    {
        let text = match kind {
            ErrorKind::Decode => "invalid base64",
            ErrorKind::UrlParse => "invalid URL",
            ErrorKind::MissingHost => "empty host",
            ErrorKind::DirectoryCreationFailed => "cache directory could not be created",
            ErrorKind::ReadFailed => "cache file could not be read",
            ErrorKind::DeserializeFailed(CodecError::Truncated) => "cache file is truncated",
            ErrorKind::DeserializeFailed(CodecError::InvalidText) => "cache file holds an invalid MIME string",
            ErrorKind::FetchFailed => "fetch failed",
            ErrorKind::FetchStatus(_) => "HTTP status error",
            ErrorKind::MissingContentType => "no content-type",
            ErrorKind::WriteFailed => "cache file could not be written",
            ErrorKind::UnsendableMime => "MIME string cannot be sent as a header",
            ErrorKind::UnexpectedEvent => "unexpected event",
        };
        IconError { kind, text: text.to_owned() }
    }

    /// The text that a reply shows for this error.
    pub fn message(&self) -> (text: String)
        ensures
            text@ == self@.text,
    {
        self.text.clone()
    }
}

} // verus!
