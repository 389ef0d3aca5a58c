//! From the result of a lookup to the HTTP reply.

use crate::artifact::{Artifact, ArtifactView};
use crate::cache::{outcome_view, text_view};
use crate::error::{ErrorKind, IconError, IconErrorView};
use vstd::prelude::*;
use vstd::slice::slice_to_vec;
use vstd::utf8::encode_utf8;

verus! {

/// An HTTP reply in plain values.
#[derive(Debug, Clone, PartialEq, Eq)]
pub struct Reply {
    pub status: u16,
    /// The value of the `content-type` header, where the reply has one.
    pub content_type: Option<String>,
    pub body: Vec<u8>,
}

/// The mathematical value of a [`Reply`].
pub struct ReplyView {
    pub status: u16,
    pub content_type: Option<Seq<char>>,
    pub body: Seq<u8>,
}

impl View for Reply {
    type V = ReplyView;

    open spec fn view(&self) -> ReplyView {
        ReplyView {
            status: self.status,
            content_type: text_view(self.content_type),
            body: self.body@,
        }
    }
}

/// Whether a byte may stand in a header value: a tab, or anything from the
/// space on but the delete character.
pub open spec fn sendable_byte(b: u8) -> bool {
    b == 9 || (b >= 32 && b != 127)
}

/// Whether a MIME string can be sent as the value of a header: every byte
/// of its UTF-8 form may stand in one.
pub open spec fn sendable(mime: Seq<char>) -> bool {
    forall|i: int|
        0 <= i < encode_utf8(mime).len() ==> sendable_byte(#[trigger] encode_utf8(mime)[i])
}

/// The reply that carries an error: 400, with the error's text as the body.
pub open spec fn error_reply_of(e: IconErrorView) -> ReplyView {
    ReplyView { status: 400, content_type: None, body: encode_utf8(e.text) }
}

/// The reply to a request: 200 with the artifact's MIME string and bytes as
/// they are, or 400 with the error's text as the body. An artifact whose
/// MIME string cannot be sent as a header is an error too.
pub open spec fn reply_of(outcome: Result<ArtifactView, IconErrorView>) -> ReplyView {
    match outcome {
        Ok(a) => if sendable(a.mime) {
            ReplyView { status: 200, content_type: Some(a.mime), body: a.bytes }
        } else {
            error_reply_of(IconError::of_kind_view(ErrorKind::UnsendableMime))
        },
        Err(e) => error_reply_of(e),
    }
}

/// Tells whether a MIME string can be sent as the value of a header.
pub fn is_sendable(mime: &str) -> (ok: bool)
    ensures
        ok == sendable(mime@),
{
    let bytes = mime.as_bytes();
    let mut i: usize = 0;
    while i < bytes.len()
        invariant
            i <= bytes@.len(),
            bytes@ == encode_utf8(mime@),
            forall|j: int| 0 <= j < i ==> sendable_byte(#[trigger] bytes@[j]),
        decreases bytes@.len() - i,
    {
        let b: u8 = bytes[i];
        if !(b == 9 || (b >= 32 && b != 127)) {
            return false;
        }
        i += 1;
    }
    true
}

fn error_reply(e: IconError) -> (reply: Reply)
    ensures
        reply@ == error_reply_of(e@),
{
    Reply { status: 400, content_type: None, body: slice_to_vec(e.text.as_str().as_bytes()) }
}

/// Builds the reply to a request from what became of it.
pub fn respond(outcome: Result<Artifact, IconError>) -> (reply: Reply)
    ensures
        reply@ == reply_of(outcome_view(outcome)),
{
    match outcome {
        Ok(a) => if is_sendable(a.mime.as_str()) {
            Reply { status: 200, content_type: Some(a.mime), body: a.bytes }
        } else {
            error_reply(IconError::of_kind(ErrorKind::UnsendableMime))
        },
        Err(e) => error_reply(e),
    }
}

} // verus!
