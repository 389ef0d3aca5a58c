//! The cache key of a URL and the name of the file that holds its artifact.

use crate::text::text_of;
use sha2::{Digest, Sha256};
use vstd::prelude::*;
use vstd::utf8::{
    encode_utf8, encode_utf8_decode_utf8, encode_utf8_valid_utf8, is_ascii_chars,
    is_ascii_chars_encode_utf8,
};

verus! {

/// The SHA-256 digest of a byte string, as `Sha256::digest` of sha2 computes
/// it.
pub uninterp spec fn sha256_digest(data: Seq<u8>) -> Seq<u8>;

/// `Sha256::digest` of sha2: the 32 bytes of the SHA-256 digest of `data`.
#[verifier::external_body]
fn sha256(data: &[u8]) -> (out: [u8; 32])
    ensures
        out@ == sha256_digest(data@),
{
    Sha256::digest(data).into()
}

/// The lower-case hexadecimal digit of a value below 16.
pub open spec fn hex_char(n: int) -> char {
    if n < 10 {
        (48 + n) as u8 as char
    } else {
        (87 + n) as u8 as char
    }
}

/// Two lower-case hexadecimal digits for each byte, the high half first.
pub open spec fn hex_lower(bytes: Seq<u8>) -> Seq<char> {
    Seq::new(
        2 * bytes.len(),
        |i: int|
            if i % 2 == 0 {
                hex_char(bytes[i / 2] as int / 16)
            } else {
                hex_char(bytes[i / 2] as int % 16)
            },
    )
}

/// The name of the cache file for a digest: its hexadecimal form and `.bin`.
pub open spec fn file_name_of(digest: Seq<u8>) -> Seq<char> {
    hex_lower(digest) + seq!['.', 'b', 'i', 'n']
}

/// The name of the cache file for a key. It depends on the key's text alone.
pub open spec fn cache_file_name(key: Seq<char>) -> Seq<char> {
    file_name_of(sha256_digest(encode_utf8(key)))
}

/// The code of a hexadecimal digit: `0`..`9` and `a`..`f`, each value its own.
pub proof fn lemma_hex_char_code(n: int)
    requires
        0 <= n < 16,
    ensures
        hex_char(n) as int == (if n < 10 {
            48 + n
        } else {
            87 + n
        }),
{
}

/// Different digests have different file names: two keys share a cache file
/// only where their digests are equal.
pub proof fn lemma_file_names_differ(a: Seq<u8>, b: Seq<u8>)
    requires
        a != b,
    ensures
        file_name_of(a) != file_name_of(b),
{
    let x = file_name_of(a);
    let y = file_name_of(b);
    assert(x.len() == 2 * a.len() + 4);
    assert(y.len() == 2 * b.len() + 4);
    if a.len() == b.len() {
        assert(!(a =~= b));
        let i = choose|i: int| 0 <= i < a.len() && a[i] != b[i];
        assert((2 * i) % 2 == 0 && (2 * i) / 2 == i) by (nonlinear_arith);
        assert((2 * i + 1) % 2 == 1 && (2 * i + 1) / 2 == i) by (nonlinear_arith)
            requires
                0 <= i,
        ;
        let p = a[i] as int;
        let q = b[i] as int;
        assert(x[2 * i] == hex_char(p / 16));
        assert(x[2 * i + 1] == hex_char(p % 16));
        assert(y[2 * i] == hex_char(q / 16));
        assert(y[2 * i + 1] == hex_char(q % 16));
        lemma_hex_char_code(p / 16);
        lemma_hex_char_code(p % 16);
        lemma_hex_char_code(q / 16);
        lemma_hex_char_code(q % 16);
        if x == y {
            assert(p / 16 == q / 16);
            assert(p % 16 == q % 16);
            assert(false);
        }
    }
}

fn hex_digit(n: u8) -> (c: u8)
    requires
        n < 16,
    ensures
        c < 128,
        c as char == hex_char(n as int),
{
    if n < 10 {
        48 + n
    } else {
        87 + n
    }
}

/// The name of the cache file for a digest.
pub fn file_name_from_digest(digest: &[u8]) -> (name: String)
    ensures
        name@ == file_name_of(digest@),
{
    let ghost want = file_name_of(digest@);
    let mut buf: Vec<u8> = Vec::new();
    let mut i: usize = 0;
    while i < digest.len()
        invariant
            i <= digest@.len(),
            want == file_name_of(digest@),
            buf@.len() == 2 * i,
            forall|j: int| 0 <= j < buf@.len() ==> buf@[j] < 128 && #[trigger] buf@[j] as char == want[j],
        decreases digest@.len() - i,
    {
        let b: u8 = digest[i];
        let hi: u8 = hex_digit(b / 16);
        let lo: u8 = hex_digit(b % 16);
        proof {
            assert((2 * i) % 2 == 0 && (2 * i) / 2 == i) by (nonlinear_arith);
            assert((2 * i + 1) % 2 == 1 && (2 * i + 1) / 2 == i) by (nonlinear_arith);
            assert(want[2 * i] == hex_char(b as int / 16));
            assert(want[2 * i + 1] == hex_char(b as int % 16));
        }
        buf.push(hi);
        buf.push(lo);
        i += 1;
    }
    buf.push(46);
    buf.push(98);
    buf.push(105);
    buf.push(110);
    proof {
        assert(want.len() == buf@.len());
        assert forall|j: int| 0 <= j < want.len() implies '\0' <= #[trigger] want[j] <= '\u{7f}' by {
            assert(buf@[j] as char == want[j]);
        }
        assert(is_ascii_chars(want));
        is_ascii_chars_encode_utf8(want);
        assert forall|j: int| 0 <= j < want.len() implies buf@[j] == encode_utf8(want)[j] by {
            assert(buf@[j] as char == want[j]);
            assert(want[j] as u8 == encode_utf8(want)[j]);
        }
        assert(buf@ =~= encode_utf8(want));
        encode_utf8_valid_utf8(want);
        encode_utf8_decode_utf8(want);
    }
    match text_of(buf) {
        Some(name) => name,
        // Never taken: the buffer holds ASCII alone.
        None => String::new(),
    }
}

/// The name of the directory, below the application's cache root, that
/// holds the cache files.
pub fn directory_name() -> (name: &'static str)
    ensures
        name@ == "icons"@,
{
    "icons"
}

/// The name of the cache file for a key: the lower-case hexadecimal SHA-256
/// digest of the key's bytes, and `.bin`. The same key gives the same name
/// on every call.
pub fn file_name_for(key: &str) -> (name: String)
    ensures
        name@ == cache_file_name(key@),
        name@.len() == 68,
{
    let digest = sha256(key.as_bytes());
    file_name_from_digest(digest.as_slice())
}

} // verus!
