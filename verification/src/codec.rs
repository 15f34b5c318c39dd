//! Encodings and digests: Base58 addresses, SHA3-256, hexadecimal text and
//! the entropy for nonces.

use rand_core::RngCore;
use rand_core::SeedableRng;
use sha3::Digest;
use vstd::prelude::*;

verus! {

/// What `bs58::decode(text).onto(buffer)` returns for a buffer of 32
/// bytes: the number of bytes that `text` decodes to, or `None` where
/// `text` is no Base58 text or decodes to more than 32 bytes.
pub uninterp spec fn base58_decoded_len(text: Seq<char>) -> Option<usize>;

/// The SHA3-256 digest of `data`, as `sha3::Sha3_256::digest` computes it.
pub uninterp spec fn sha3_256(data: Seq<u8>) -> Seq<u8>;

/// The lowercase hexadecimal digit for `d`.
pub open spec fn hex_digit(d: nat) -> char {
    if d < 10 {
        crate::text::digit_char(d)
    } else if d == 10 {
        'a'
    } else if d == 11 {
        'b'
    } else if d == 12 {
        'c'
    } else if d == 13 {
        'd'
    } else if d == 14 {
        'e'
    } else {
        'f'
    }
}

/// `bytes` in lowercase hexadecimal, two digits per byte.
pub open spec fn hex_text(bytes: Seq<u8>) -> Seq<char> {
    Seq::new(
        2 * bytes.len(),
        |i: int| if i % 2 == 0 {
            hex_digit(bytes[i / 2] as nat / 16)
        } else {
            hex_digit(bytes[i / 2] as nat % 16)
        },
    )
}

/// Hexadecimal text consists of ASCII characters only, so it takes one
/// byte per character in UTF-8.
pub proof fn lemma_hex_text_is_ascii(bytes: Seq<u8>)
    ensures
        vstd::utf8::is_ascii_chars(hex_text(bytes)),
        vstd::utf8::encode_utf8(hex_text(bytes)).len() == 2 * bytes.len(),
{
    assert forall|i: int| 0 <= i < hex_text(bytes).len() implies '\0' <= #[trigger] hex_text(
        bytes,
    )[i] <= '\u{7f}' by {
        let b = bytes[i / 2] as nat;
        assert(b / 16 < 16);
        assert(b % 16 < 16);
    }
    vstd::utf8::is_ascii_chars_encode_utf8(hex_text(bytes));
}

/// Computes `hex_digit`.
fn hex_digit_of(d: u8) -> (c: char)
    requires
        d < 16,
    ensures
        c == hex_digit(d as nat),
{
    if d < 10 {
        crate::text::digit_to_char(d)
    } else if d == 10 {
        'a'
    } else if d == 11 {
        'b'
    } else if d == 12 {
        'c'
    } else if d == 13 {
        'd'
    } else if d == 14 {
        'e'
    } else {
        'f'
    }
}

/// Computes `hex_text`.
pub fn to_hex(bytes: &[u8]) -> (text: String)
    ensures
        text@ == hex_text(bytes@),
{
    let n: usize = bytes.len();
    let mut chars: Vec<char> = Vec::new();
    let mut i: usize = 0;
    while i < n
        invariant
            n == bytes@.len(),
            i <= n,
            chars@.len() == 2 * i,
            forall|k: int| 0 <= k < 2 * i ==> chars@[k] == hex_text(bytes@)[k],
        decreases n - i,
    {
        let b: u8 = bytes[i];
        chars.push(hex_digit_of(b / 16));
        chars.push(hex_digit_of(b % 16));
        i += 1;
    }
    proof {
        assert(chars@ =~= hex_text(bytes@));
    }
    crate::text::string_of(chars.as_slice())
}

/// Decodes `address` as Base58 into a buffer of 32 bytes and tells how
/// many bytes were written.
///
/// Calls `bs58::decode(..).onto(..)` with the default alphabet. The
/// decoder writes at most as many bytes as the buffer holds and fails
/// otherwise, hence the bound.
#[verifier::external_body]
pub(crate) fn decode_base58_len(address: &str) -> (r: Option<usize>)
    ensures
        r == base58_decoded_len(address@),
        r matches Some(n) ==> n <= 32,
{
    let mut buffer = [0u8; 32];
    bs58::decode(address).onto(&mut buffer).ok()
}

/// The SHA3-256 digest of `data`.
///
/// Calls `sha3::Sha3_256::digest`; the contract names the digest.
#[verifier::external_body]
pub(crate) fn sha3_256_digest(data: &[u8]) -> (digest: [u8; 32])
    ensures
        digest@ == sha3_256(data@),
{
    sha3::Sha3_256::digest(data).into()
}

/// Thirty-two bytes from a ChaCha generator with twelve rounds that is
/// seeded by the operating system.
///
/// Calls `rand_chacha::ChaCha12Rng::from_os_rng` and `fill_bytes`. Nothing
/// is promised of the bytes. Seeding aborts the program where the
/// operating system cannot provide entropy.
#[verifier::external_body]
pub(crate) fn os_random_bytes() -> (bytes: [u8; 32]) {
    let mut buffer = [0u8; 32];
    rand_chacha::ChaCha12Rng::from_os_rng().fill_bytes(&mut buffer);
    buffer
}

/// The nonce made from `entropy`: the SHA3-256 digest of the bytes in
/// hexadecimal, 64 characters long.
pub fn nonce_from_entropy(entropy: &[u8; 32]) -> (nonce: String)
    ensures
        nonce@ == hex_text(sha3_256(entropy@)),
        nonce@.len() == 64,
{
    let digest = sha3_256_digest(entropy.as_slice());
    to_hex(digest.as_slice())
}

} // verus!
