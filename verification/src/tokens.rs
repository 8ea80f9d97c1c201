//! Password-reset tokens, their stored digests and per-device hashes.

use vstd::prelude::*;
use crate::text::string_from_chars;
use vstd::string::StringSliceAdditionalSpecFns;

verus! {

/// The lowercase hexadecimal digit for `d` in `0..16`.
pub open spec fn hex_digit(d: int) -> char {
    if d < 10 {
        crate::numbers::digit_char(d)
    } else if d == 10 {
        'a'
    } else if d == 11 {
        'b'
    } else if d == 12 {
        'c'
    } else if d == 13 {
        'd'
    } else if d == 14 {
        'e'
    } else {
        'f'
    }
}

/// Each byte as two lowercase hexadecimal digits, high nibble first
/// (`{:02x}` per byte, as `{:x}` prints a digest).
pub open spec fn hex_lower(bytes: Seq<u8>) -> Seq<char>
    decreases bytes.len(),
{
    if bytes.len() == 0 {
        seq![]
    } else {
        hex_lower(bytes.drop_last()) + seq![
            hex_digit((bytes.last() / 16) as int),
            hex_digit((bytes.last() % 16) as int),
        ]
    }
}

/// Whether `c` is a lowercase hexadecimal digit.
pub open spec fn is_lower_hex(c: char) -> bool {
    ('0' <= c && c <= '9') || ('a' <= c && c <= 'f')
}

/// The hexadecimal digit for `d`.
fn hex_char(d: u8) -> (c: char)
    requires
        d < 16,
    ensures
        c == hex_digit(d as int),
{
    if d < 10 {
        if d == 0 { '0' } else if d == 1 { '1' } else if d == 2 { '2' } else if d == 3 { '3' } else if d
            == 4 { '4' } else if d == 5 { '5' } else if d == 6 { '6' } else if d == 7 { '7' } else if d
            == 8 { '8' } else { '9' }
    } else if d == 10 {
        'a'
    } else if d == 11 {
        'b'
    } else if d == 12 {
        'c'
    } else if d == 13 {
        'd'
    } else if d == 14 {
        'e'
    } else {
        'f'
    }
}

/// Lowercase hexadecimal text of `bytes`.
pub fn to_hex_lower(bytes: &[u8]) -> (out: String)
    ensures
        out@ == hex_lower(bytes@),
{
    let mut v: Vec<char> = Vec::new();
    let mut i: usize = 0;
    while i < bytes.len()
        invariant
            i <= bytes.len(),
            v@ == hex_lower(bytes@.take(i as int)),
        decreases bytes.len() - i,
    {
        let b = bytes[i];
        v.push(hex_char(b / 16));
        v.push(hex_char(b % 16));
        proof {
            let t = bytes@.take(i + 1);
            assert(t.drop_last() =~= bytes@.take(i as int));
            assert(t.last() == b);
            assert(v@ =~= hex_lower(t));
        }
        i += 1;
    }
    assert(bytes@.take(bytes.len() as int) =~= bytes@);
    string_from_chars(&v)
}

/// Hexadecimal text is twice as long as the bytes and uses only `0-9a-f`.
pub proof fn lemma_hex_lower_shape(bytes: Seq<u8>)
    ensures
        hex_lower(bytes).len() == 2 * bytes.len(),
        forall|i: int| 0 <= i < hex_lower(bytes).len() ==> is_lower_hex(#[trigger] hex_lower(bytes)[i]),
    decreases bytes.len(),
{
    if bytes.len() > 0 {
        let t = bytes.drop_last();
        lemma_hex_lower_shape(t);
        let h = hex_lower(t);
        let x = bytes.last();
        assert forall|i: int| 0 <= i < hex_lower(bytes).len() implies is_lower_hex(
            #[trigger] hex_lower(bytes)[i],
        ) by {
            if i < h.len() {
                assert(hex_lower(bytes)[i] == h[i]);
            } else if i == h.len() {
                assert(hex_lower(bytes)[i] == hex_digit((x / 16) as int));
            } else {
                assert(hex_lower(bytes)[i] == hex_digit((x % 16) as int));
            }
        }
    }
}

/// The SHA-256 digest of some bytes.
pub uninterp spec fn sha256(data: Seq<u8>) -> Seq<u8>;

/// SHA-256 of `data` with the `sha2` crate (`Sha256::digest`). The contract
/// names the digest and states its length of 32 bytes, which the output
/// type fixes.
#[verifier::external_body]
fn sha256_digest(data: &[u8]) -> (r: Vec<u8>)
    ensures
        r@ == sha256(data@),
        r@.len() == 32,
{
    <sha2::Sha256 as sha2::Digest>::digest(data).to_vec()
}

/// Thirty-two bytes from the operating system's random source (`rand`'s
/// `OsRng.try_fill_bytes`). `None` when the source reports an error; when
/// bytes come back, nothing is claimed of them but their number.
#[verifier::external_body]
fn os_random_32() -> (r: Option<Vec<u8>>)
    ensures
        r matches Some(v) ==> v@.len() == 32,
{
    let mut bytes = [0u8; 32];
    match rand::RngCore::try_fill_bytes(&mut rand::rngs::OsRng, &mut bytes) {
        Ok(()) => Some(bytes.to_vec()),
        Err(_) => None,
    }
}

/// A fresh token: 32 random bytes as 64 lowercase hexadecimal characters, or
/// `None` when the operating system's random source fails.
pub fn new_reset_token() -> (token: Option<String>)
    ensures
        token matches Some(t) ==> {
            &&& exists|b: Seq<u8>| b.len() == 32 && t@ == hex_lower(b)
            &&& t@.len() == 64
            &&& forall|i: int| 0 <= i < t@.len() ==> is_lower_hex(#[trigger] t@[i])
        },
{
    match os_random_32() {
        Some(bytes) => {
            let token = to_hex_lower(bytes.as_slice());
            proof {
                lemma_hex_lower_shape(bytes@);
            }
            Some(token)
        },
        None => None,
    }
}

/// Digest of a reset token, as stored in the database.
pub fn hash_reset_token(token: &str) -> (out: String)
    ensures
        out@ == hex_lower(sha256(token.spec_bytes())),
        out@.len() == 64,
{
    let d = sha256_digest(token.as_bytes());
    proof {
        lemma_hex_lower_shape(d@);
    }
    to_hex_lower(d.as_slice())
}

/// The key under which chord-view preferences are stored per device:
/// lowercase hex of the SHA-256 of the `User-Agent` header (empty when the
/// header is missing or not valid text).
pub fn device_hash(user_agent: Option<&str>) -> (out: String)
    ensures
        out@ == hex_lower(
            sha256(
                match user_agent {
                    Some(ua) => ua.spec_bytes(),
                    None => Seq::<u8>::empty(),
                },
            ),
        ),
        out@.len() == 64,
{
    let bytes: Vec<u8> = match user_agent {
        Some(ua) => crate::tokens::slice_to_vec(ua.as_bytes()),
        None => Vec::new(),
    };
    let d = sha256_digest(bytes.as_slice());
    proof {
        lemma_hex_lower_shape(d@);
    }
    to_hex_lower(d.as_slice())
}

/// A copy of a byte slice.
fn slice_to_vec(s: &[u8]) -> (v: Vec<u8>)
    ensures
        v@ == s@,
{
    let mut v: Vec<u8> = Vec::new();
    let mut i: usize = 0;
    while i < s.len()
        invariant
            i <= s.len(),
            v@ == s@.take(i as int),
        decreases s.len() - i,
    {
        v.push(s[i]);
        assert(s@.take(i + 1) =~= s@.take(i as int).push(s@[i as int]));
        i += 1;
    }
    assert(s@.take(s.len() as int) =~= s@);
    v
}

} // verus!
