//! Stable identifiers for items, derived from their source URL.

use sha2::Digest;
use vstd::prelude::*;

use crate::text::string_of;

verus! {

/// The SHA-256 digest of a byte string.
pub uninterp spec fn sha256_digest(data: Seq<u8>) -> Seq<u8>;

/// `Sha256::digest` of the sha2 crate: the digest depends on the bytes alone
/// and is 32 bytes long.
#[verifier::external_body]
fn sha256(data: &[u8]) -> (digest: Vec<u8>)
    ensures
        digest@ == sha256_digest(data@),
        digest@.len() == 32,
{
    sha2::Sha256::digest(data).to_vec()
}

/// How many characters an identifier has.
pub const ID_LENGTH: usize = 16;

/// The lower-case hexadecimal digit for `n`, for `0 <= n < 16`.
pub open spec fn hex_char(n: int) -> char {
    "0123456789abcdef"@[n]
}

/// The lower-case hexadecimal rendering of `bytes`, two digits per byte, high
/// digit first.
pub open spec fn hex_lower(bytes: Seq<u8>) -> Seq<char> {
    Seq::new(
        2 * bytes.len(),
        |i: int|
            if i % 2 == 0 {
                hex_char(bytes[i / 2] as int / 16)
            } else {
                hex_char(bytes[i / 2] as int % 16)
            },
    )
}

/// The identifier of the item at `url`: the first eight bytes of the SHA-256
/// digest of the URL's UTF-8 bytes, in lower-case hexadecimal.
pub open spec fn video_id_text(url: Seq<char>) -> Seq<char> {
    hex_lower(sha256_digest(vstd::utf8::encode_utf8(url)).take(8))
}

/// Whether `c` is a lower-case hexadecimal digit.
pub open spec fn is_lower_hex(c: char) -> bool {
    ('0' <= c && c <= '9') || ('a' <= c && c <= 'f')
}

fn hex_digit(n: u8) -> (c: char)
    requires
        n < 16,
    ensures
        c == hex_char(n as int),
        is_lower_hex(c),
{
    proof {
        reveal_strlit("0123456789abcdef");
    }
    "0123456789abcdef".get_char(n as usize)
}

/// The lower-case hexadecimal rendering of the first `count` bytes.
pub fn hex_prefix(bytes: &Vec<u8>, count: usize) -> (text: String)
    requires
        count <= bytes.len(),
    ensures
        text@ == hex_lower(bytes@.take(count as int)),
        text@.len() == 2 * count,
        forall|j: int| 0 <= j < text@.len() ==> is_lower_hex(#[trigger] text@[j]),
{
    let mut out: Vec<char> = Vec::new();
    let mut i: usize = 0;
    while i < count
        invariant
            i <= count <= bytes.len(),
            out@.len() == 2 * i,
            forall|j: int|
                0 <= j < 2 * i ==> out@[j] == #[trigger] hex_lower(bytes@.take(count as int))[j],
            forall|j: int| 0 <= j < 2 * i ==> is_lower_hex(#[trigger] out@[j]),
        decreases count - i,
    {
        let b: u8 = bytes[i];
        let high = hex_digit(b / 16);
        let low = hex_digit(b % 16);
        out.push(high);
        out.push(low);
        i += 1;
    }
    assert(out@ =~= hex_lower(bytes@.take(count as int)));
    string_of(&out)
}

/// The identifier under which the item at `url` is tracked. It depends on the
/// URL alone, so the same URL gives the same identifier in every run.
pub fn generate_video_id(url: &str) -> (id: String)
    ensures
        id@ == video_id_text(url@),
        id@.len() == ID_LENGTH,
        forall|j: int| 0 <= j < id@.len() ==> is_lower_hex(#[trigger] id@[j]),
{
    let digest = sha256(url.as_bytes());
    hex_prefix(&digest, 8)
}

} // verus!
