//! The cached unit and its on-disk format.
//!
//! An artifact is stored as two length-prefixed fields: the MIME string as
//! UTF-8, then the raw bytes. Each prefix is the field's length as an
//! unsigned 64-bit integer, little endian.

use vstd::bytes::{
    lemma_auto_spec_u64_to_from_le_bytes, spec_u64_from_le_bytes, spec_u64_to_le_bytes,
    u64_from_le_bytes, u64_to_le_bytes,
};
use vstd::prelude::*;
use crate::text::text_of;
use vstd::slice::{slice_subrange, slice_to_vec};
use vstd::utf8::{
    decode_utf8, encode_utf8, encode_utf8_decode_utf8, encode_utf8_valid_utf8, valid_utf8,
};

verus! {

/// One fetched resource: its MIME type and its content.
#[derive(Debug, Clone, PartialEq, Eq)]
pub struct Artifact {
    pub mime: String,
    pub bytes: Vec<u8>,
}

/// The mathematical value of an [`Artifact`].
pub struct ArtifactView {
    pub mime: Seq<char>,
    pub bytes: Seq<u8>,
}

impl View for Artifact {
    type V = ArtifactView;

    open spec fn view(&self) -> ArtifactView {
        ArtifactView { mime: self.mime@, bytes: self.bytes@ }
    }
}

/// Why stored bytes are not an artifact.
#[derive(Debug, Clone, Copy, PartialEq, Eq, Structural)]
pub enum CodecError {
    /// A length prefix is incomplete, or announces more bytes than remain.
    Truncated,
    /// The MIME field is not valid UTF-8.
    InvalidText,
}

/// A field on disk: its length in eight little-endian bytes, then the field.
pub open spec fn length_prefixed(payload: Seq<u8>) -> Seq<u8> {
    spec_u64_to_le_bytes(payload.len() as u64) + payload
}

/// The stored form of an artifact.
pub open spec fn encoded(a: ArtifactView) -> Seq<u8> {
    length_prefixed(encode_utf8(a.mime)) + length_prefixed(a.bytes)
}

/// The field that starts at `start`, if `input` holds all of it.
pub open spec fn field_at(input: Seq<u8>, start: int) -> Option<Seq<u8>> {
    if input.len() - start < 8 {
        None
    } else {
        let n = spec_u64_from_le_bytes(input.subrange(start, start + 8)) as int;
        if input.len() - start - 8 < n {
            None
        } else {
            Some(input.subrange(start + 8, start + 8 + n))
        }
    }
}

/// What stored bytes stand for. Bytes after the second field are ignored.
pub open spec fn decoded(input: Seq<u8>) -> Result<ArtifactView, CodecError> {
    match field_at(input, 0) {
        None => Err(CodecError::Truncated),
        Some(text) => if !valid_utf8(text) {
            Err(CodecError::InvalidText)
        } else {
            match field_at(input, 8 + text.len() as int) {
                None => Err(CodecError::Truncated),
                Some(bytes) => Ok(ArtifactView { mime: decode_utf8(text), bytes }),
            }
        },
    }
}

/// Whether an artifact's fields are short enough for their length prefixes.
/// Every [`Artifact`] in memory is.
pub open spec fn storable(a: ArtifactView) -> bool {
    encode_utf8(a.mime).len() <= u64::MAX && a.bytes.len() <= u64::MAX
}

/// Reads the field that starts at `start`.
fn take_field(input: &[u8], start: usize) -> (r: Option<&[u8]>)
    requires
        start <= input@.len(),
    ensures
        r is Some ==> start + 8 + r.unwrap()@.len() <= usize::MAX,
        match (r, field_at(input@, start as int)) {
            (Some(field), Some(want)) => field@ == want,
            (None, None) => true,
            _ => false,
        },
{
    let remaining: usize = input.len() - start;
    if remaining < 8 {
        return None;
    }
    let n: u64 = u64_from_le_bytes(slice_subrange(input, start, start + 8));
    if ((remaining - 8) as u64) < n {
        return None;
    }
    let len: usize = n as usize;
    Some(slice_subrange(input, start + 8, start + 8 + len))
}

impl Artifact {
    /// The bytes to store for this artifact.
    pub fn encode(&self) -> (out: Vec<u8>)
        ensures
            out@ == encoded(self@),
            storable(self@),
    {
        let text = self.mime.as_str().as_bytes();
        let mut out = u64_to_le_bytes(text.len() as u64);
        out.extend_from_slice(text);
        let mut prefix = u64_to_le_bytes(self.bytes.len() as u64);
        out.append(&mut prefix);
        out.extend_from_slice(self.bytes.as_slice());
        assert(out@ =~= encoded(self@));
        out
    }

    /// Reads an artifact back from stored bytes.
    pub fn decode(input: &[u8]) -> (r: Result<Artifact, CodecError>)
        ensures
            match (r, decoded(input@)) {
                (Ok(a), Ok(want)) => a@ == want,
                (Err(e), Err(want)) => e == want,
                _ => false,
            },
    {
        let text = match take_field(input, 0) {
            None => { return Err(CodecError::Truncated); },
            Some(text) => text,
        };
        let next: usize = 8 + text.len();
        let mime = match text_of(slice_to_vec(text)) {
            None => { return Err(CodecError::InvalidText); },
            Some(mime) => mime,
        };
        let bytes = match take_field(input, next) {
            None => { return Err(CodecError::Truncated); },
            Some(bytes) => bytes,
        };
        Ok(Artifact { mime, bytes: slice_to_vec(bytes) })
    }
}

/// Reading back what was stored gives the artifact that was stored: the same
/// MIME string and the same bytes, whatever they hold.
pub proof fn lemma_decode_inverts_encode(a: ArtifactView)
    requires
        storable(a),
    ensures
        decoded(encoded(a)) == Ok::<ArtifactView, CodecError>(a),
{
    lemma_stored_fields(a, Seq::empty());
}

/// Bytes that follow a stored artifact do not change what is read back.
pub proof fn lemma_stored_fields(a: ArtifactView, rest: Seq<u8>)
    requires
        storable(a),
    ensures
        decoded(encoded(a) + rest) == Ok::<ArtifactView, CodecError>(a),
{
    lemma_auto_spec_u64_to_from_le_bytes();
    encode_utf8_valid_utf8(a.mime);
    encode_utf8_decode_utf8(a.mime);
    let text = encode_utf8(a.mime);
    let input = encoded(a) + rest;
    let p1 = spec_u64_to_le_bytes(text.len() as u64);
    let p2 = spec_u64_to_le_bytes(a.bytes.len() as u64);
    assert(input.subrange(0, 8) =~= p1);
    assert(input.subrange(8, 8 + text.len() as int) =~= text);
    assert(field_at(input, 0) == Some(text));
    let next: int = 8 + text.len() as int;
    assert(input.subrange(next, next + 8) =~= p2);
    assert(input.subrange(next + 8, next + 8 + a.bytes.len() as int) =~= a.bytes);
    assert(field_at(input, next) == Some(a.bytes));
}

} // verus!
