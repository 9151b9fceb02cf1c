//! SHA-256 digests, the texts that they are written as, and the comparison of secrets by digest.

use crate::text::joined;
use base64::Engine;
use sha2::Digest;
use vstd::prelude::*;
use vstd::string::*;
use vstd::utf8::*;

verus! {

/// The SHA-256 digest of `data`.
pub uninterp spec fn sha256(data: Seq<u8>) -> Seq<u8>;

/// `sha2::Sha256::digest`: the digest of the bytes, which are 32.
#[verifier::external_body]
pub(crate) fn sha256_digest(data: &[u8]) -> (digest: Vec<u8>)
    ensures
        digest@ == sha256(data@),
        digest@.len() == 32,
{
    sha2::Sha256::digest(data).to_vec()
}

/// The URL-safe base64 text of `data`, without padding.
pub uninterp spec fn base64_url(data: Seq<u8>) -> Seq<char>;

/// `URL_SAFE_NO_PAD.encode` of the crate `base64`: the URL-safe base64 text of the bytes, without
/// padding.
#[verifier::external_body]
pub(crate) fn base64_url_encode(data: &[u8]) -> (encoded: String)
    ensures
        encoded@ == base64_url(data@),
{
    base64::engine::general_purpose::URL_SAFE_NO_PAD.encode(data)
}

/// One hexadecimal digit, in lower case.
pub open spec fn hex_digit(n: int) -> char
    recommends
        0 <= n < 16,
{
    if n < 10 {
        (('0' as u32 + n) as u32) as char
    } else {
        (('a' as u32 + n - 10) as u32) as char
    }
}

/// Two lower-case hexadecimal digits for each byte, the higher half first.
pub open spec fn hex_text(data: Seq<u8>) -> Seq<char> {
    Seq::new(
        2 * data.len(),
        |i: int|
            if i % 2 == 0 {
                hex_digit(data[i / 2] as int / 16)
            } else {
                hex_digit(data[i / 2] as int % 16)
            },
    )
}

/// Whether two texts have the same SHA-256 digest.
pub open spec fn same_digest(left: Seq<char>, right: Seq<char>) -> bool {
    sha256(encode_utf8(left)) == sha256(encode_utf8(right))
}

/// The URL-safe base64 text of the SHA-256 digest of a text.
pub open spec fn digest_text(value: Seq<char>) -> Seq<char> {
    base64_url(sha256(encode_utf8(value)))
}

fn to_hex_digit(n: u8) -> (c: char)
    requires
        n < 16,
    ensures
        c == hex_digit(n as int),
{
    if n < 10 {
        (48 + n) as char
    } else {
        (87 + n) as char
    }
}

/// The bytes as lower-case hexadecimal digits.
pub fn to_hex(data: &[u8]) -> (text: String)
    ensures
        text@ == hex_text(data@),
{
    let mut text: String = String::new();
    let mut i: usize = 0;
    while i < data.len()
        invariant
            i <= data.len(),
            text@ == hex_text(data@.take(i as int)),
        decreases data.len() - i,
    {
        let byte: u8 = data[i];
        text.push(to_hex_digit(byte / 16));
        text.push(to_hex_digit(byte % 16));
        proof {
            assert(data@.take(i + 1) == data@.take(i as int).push(byte));
            assert(text@ =~= hex_text(data@.take(i + 1)));
        }
        i = i + 1;
    }
    assert(data@.take(data@.len() as int) == data@);
    text
}

/// Compares two secrets by their SHA-256 digests. Every byte of the digests is looked at,
/// whatever the bytes before it were.
pub fn secure_equal(left: &str, right: &str) -> (equal: bool)
    ensures
        equal == same_digest(left@, right@),
{
    let left: Vec<u8> = sha256_digest(left.as_bytes());
    let right: Vec<u8> = sha256_digest(right.as_bytes());
    let mut difference: u8 = 0;
    let mut i: usize = 0;
    while i < left.len()
        invariant
            i <= left.len(),
            left.len() == right.len(),
            (difference == 0) == (forall|j: int| 0 <= j < i ==> left@[j] == right@[j]),
        decreases left.len() - i,
    {
        let a: u8 = left[i];
        let b: u8 = right[i];
        proof {
            assert((difference | (a ^ b)) == 0 <==> (difference == 0 && a == b)) by (bit_vector);
        }
        difference = difference | (a ^ b);
        i = i + 1;
    }
    proof {
        if difference == 0 {
            assert(left@ =~= right@);
        }
    }
    difference == 0
}

fn encoded_digest(value: &str) -> (encoded: String)
    ensures
        encoded@ == digest_text(value@),
{
    base64_url_encode(sha256_digest(value.as_bytes()).as_slice())
}

/// The PKCE challenge of a verifier by the method `S256`.
pub fn pkce_challenge(verifier: &str) -> (challenge: String)
    ensures
        challenge@ == digest_text(verifier@),
{
    encoded_digest(verifier)
}

/// The lower-case hexadecimal text of the SHA-256 digest of some bytes.
pub fn digest_hex(data: &[u8]) -> (text: String)
    ensures
        text@ == hex_text(sha256(data@)),
{
    to_hex(sha256_digest(data).as_slice())
}

/// The key under which a binding of the given kind is stored: the kind, a colon and the digest
/// of the value.
pub fn binding_key(kind: &str, value: &str) -> (key: String)
    ensures
        key@ == binding_key_text(kind@, value@),
{
    joined(kind, ":").concat(encoded_digest(value).as_str())
}

/// What `binding_key` returns.
pub open spec fn binding_key_text(kind: Seq<char>, value: Seq<char>) -> Seq<char> {
    kind + ":"@ + digest_text(value)
}

// ---------------------------------------------------------------------------------------------
// Laws
// ---------------------------------------------------------------------------------------------

/// The number that a lower-case hexadecimal digit stands for.
pub open spec fn hex_number(c: char) -> int {
    if c <= '9' {
        c as u32 - '0' as u32
    } else {
        c as u32 - 'a' as u32 + 10
    }
}

/// Bytes that are written are read back: two digits stand for each, in order, and every digit is one
/// of `0` to `9` and `a` to `f`.
pub proof fn hexadecimal_digits_stand_for_their_bytes(data: Seq<u8>, i: int)
    requires
        0 <= i < data.len(),
    ensures
        hex_text(data).len() == 2 * data.len(),
        16 * hex_number(hex_text(data)[2 * i]) + hex_number(hex_text(data)[2 * i + 1]) == data[i],
        '0' <= hex_text(data)[2 * i] <= '9' || 'a' <= hex_text(data)[2 * i] <= 'f',
        '0' <= hex_text(data)[2 * i + 1] <= '9' || 'a' <= hex_text(data)[2 * i + 1] <= 'f',
{
    let byte = data[i] as int;
    assert((2 * i) / 2 == i && (2 * i) % 2 == 0);
    assert((2 * i + 1) / 2 == i && (2 * i + 1) % 2 == 1);
    assert(0 <= byte / 16 < 16 && 0 <= byte % 16 < 16);
    assert(hex_text(data)[2 * i] == hex_digit(byte / 16));
    assert(hex_text(data)[2 * i + 1] == hex_digit(byte % 16));
}

/// Different bytes are written differently.
pub proof fn hexadecimal_text_tells_bytes_apart(a: Seq<u8>, b: Seq<u8>)
    requires
        hex_text(a) == hex_text(b),
    ensures
        a == b,
{
    assert(hex_text(a).len() == 2 * a.len());
    assert(hex_text(b).len() == 2 * b.len());
    assert forall|i: int| 0 <= i < a.len() implies a[i] == b[i] by {
        hexadecimal_digits_stand_for_their_bytes(a, i);
        hexadecimal_digits_stand_for_their_bytes(b, i);
    }
    assert(a =~= b);
}

/// Comparing by digests is to compare: a secret equals itself, and in whichever order two are
/// compared, or through a third, the outcome is the same.
pub proof fn secrets_are_compared_evenly(a: Seq<char>, b: Seq<char>, c: Seq<char>)
    ensures
        same_digest(a, a),
        same_digest(a, b) == same_digest(b, a),
        same_digest(a, b) && same_digest(b, c) ==> same_digest(a, c),
        same_digest(a, b) <==> sha256(encode_utf8(a)) == sha256(encode_utf8(b)),
        same_digest(a, b) ==> digest_text(a) == digest_text(b),
{
}

/// A key is its kind and a colon, and after that depends on the digest of the value alone.
pub proof fn a_key_starts_with_its_kind(kind: Seq<char>, a: Seq<char>, b: Seq<char>)
    ensures
        kind.is_prefix_of(binding_key_text(kind, a)),
        binding_key_text(kind, a)[kind.len() as int] == ':',
        binding_key_text(kind, a).skip(kind.len() as int + 1) == base64_url(
            sha256(encode_utf8(a)),
        ),
        binding_key_text(kind, a) == binding_key_text(kind, b) <==> digest_text(a) == digest_text(
            b,
        ),
{
    reveal_strlit(":");
    let key = binding_key_text(kind, a);
    let other = binding_key_text(kind, b);
    assert(key.take(kind.len() as int) =~= kind);
    assert(key.skip(kind.len() as int + 1) =~= digest_text(a));
    assert(other.skip(kind.len() as int + 1) =~= digest_text(b));
}

} // verus!
