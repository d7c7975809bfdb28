//! Byte encodings and digests used by the API: base64 (URL-safe without
//! padding, and standard), lowercase hex, and SHA-256.
use base64::Engine;
use sha2::Digest;
use vstd::prelude::*;

verus! {

/// The character of a six-bit value in the URL-safe base64 alphabet
/// (`A-Z`, `a-z`, `0-9`, `-`, `_`).
pub open spec fn b64url_char(v: int) -> char {
    if v < 26 {
        (65 + v) as char
    } else if v < 52 {
        (71 + v) as char
    } else if v < 62 {
        (v - 4) as char
    } else if v == 62 {
        '-'
    } else {
        '_'
    }
}

/// The text that base64 (URL-safe alphabet, no padding) writes for `data`:
/// each group of three bytes becomes four characters, six bits each, most
/// significant first; a final group of one or two bytes becomes two or
/// three characters, its missing bits zero.
pub open spec fn b64url_encode(data: Seq<u8>) -> Seq<char>
    decreases data.len(),
{
    if data.len() == 0 {
        seq![]
    } else if data.len() == 1 {
        seq![b64url_char((data[0] as int) / 4), b64url_char(((data[0] as int) % 4) * 16)]
    } else if data.len() == 2 {
        seq![
            b64url_char((data[0] as int) / 4),
            b64url_char(((data[0] as int) % 4) * 16 + (data[1] as int) / 16),
            b64url_char(((data[1] as int) % 16) * 4),
        ]
    } else {
        seq![
            b64url_char((data[0] as int) / 4),
            b64url_char(((data[0] as int) % 4) * 16 + (data[1] as int) / 16),
            b64url_char(((data[1] as int) % 16) * 4 + (data[2] as int) / 64),
            b64url_char((data[2] as int) % 64),
        ] + b64url_encode(data.subrange(3, data.len() as int))
    }
}

/// The length of the base64 text of `n` bytes (URL-safe, no padding).
pub open spec fn b64url_len(n: nat) -> nat {
    4 * (n / 3) + (if n % 3 == 0 {
        0
    } else {
        n % 3 + 1
    })
}

/// The URL-safe base64 text of `n` bytes has `4 * (n / 3)` characters plus
/// two or three for a final partial group.
pub proof fn lemma_b64url_len(data: Seq<u8>)
    ensures
        b64url_encode(data).len() == b64url_len(data.len()),
    decreases data.len(),
{
    if data.len() >= 3 {
        lemma_b64url_len(data.subrange(3, data.len() as int));
    }
}

/// The bytes that base64 (URL-safe alphabet, no padding) reads from
/// `text`, or `None` when it refuses the text.
pub uninterp spec fn b64url_decode(text: Seq<char>) -> Option<Seq<u8>>;

/// The bytes that standard base64 (with padding) reads from `text`, or the
/// message of the error with which it refuses the text.
pub uninterp spec fn b64std_decode(text: Seq<char>) -> Result<Seq<u8>, Seq<char>>;

/// The SHA-256 digest of `data`.
pub uninterp spec fn sha256(data: Seq<u8>) -> Seq<u8>;

/// `base64::engine::general_purpose::URL_SAFE_NO_PAD.encode`. The contract
/// states the encoding of RFC 4648 with the URL-safe alphabet and without
/// padding.
#[verifier::external_body]
pub fn base64_url_encode(data: &[u8]) -> (r: String)
    ensures
        r@ == b64url_encode(data@),
{
    base64::engine::general_purpose::URL_SAFE_NO_PAD.encode(data)
}

/// `base64::engine::general_purpose::URL_SAFE_NO_PAD.decode` of the bytes
/// of `text`. The contract names the result after the text, and claims the
/// round trip that the engine guarantees: decoding what it encoded gives
/// back the encoded bytes.
#[verifier::external_body]
pub fn base64_url_decode(text: &str) -> (r: Option<Vec<u8>>)
    ensures
        match r {
            Some(v) => b64url_decode(text@) == Some(v@),
            None => b64url_decode(text@) is None,
        },
        r matches Some(v) ==> forall|x: Seq<u8>| #[trigger] b64url_encode(x) == text@ ==> v@ == x,
        r is None ==> forall|x: Seq<u8>| #[trigger] b64url_encode(x) != text@,
{
    match base64::engine::general_purpose::URL_SAFE_NO_PAD.decode(text.as_bytes()) {
        Ok(v) => Some(v),
        Err(_) => None,
    }
}

/// `base64::engine::general_purpose::STANDARD.decode` of the bytes of
/// `text`, with the error rendered by its `Display`. The contract names
/// the result (bytes or message) after the text.
#[verifier::external_body]
pub fn base64_std_decode(text: &str) -> (r: Result<Vec<u8>, String>)
    ensures
        match r {
            Ok(v) => b64std_decode(text@) == Ok::<Seq<u8>, Seq<char>>(v@),
            Err(m) => b64std_decode(text@) == Err::<Seq<u8>, Seq<char>>(m@),
        },
{
    match base64::engine::general_purpose::STANDARD.decode(text.as_bytes()) {
        Ok(v) => Ok(v),
        Err(e) => Err(e.to_string()),
    }
}

/// `<sha2::Sha256 as Digest>::digest`. The contract names the digest after
/// the input and claims its length, 32 bytes.
#[verifier::external_body]
pub fn sha256_digest(data: &[u8]) -> (r: Vec<u8>)
    ensures
        r@ == sha256(data@),
        r@.len() == 32,
{
    sha2::Sha256::digest(data).to_vec()
}

/// The lowercase hex digit of a value 0..=15.
pub open spec fn hex_char(v: int) -> char {
    if v < 10 {
        (48 + v) as char
    } else {
        (87 + v) as char
    }
}

/// Two lowercase hex digits per byte, high nibble first.
pub open spec fn hex_lower(data: Seq<u8>) -> Seq<char>
    decreases data.len(),
{
    if data.len() == 0 {
        seq![]
    } else {
        hex_lower(data.drop_last()) + seq![
            hex_char(data.last() as int / 16),
            hex_char(data.last() as int % 16),
        ]
    }
}

/// `hex::encode`. The contract claims what the crate documents: each byte
/// becomes two lowercase hex digits, in order.
#[verifier::external_body]
pub fn hex_encode(data: &[u8]) -> (r: String)
    ensures
        r@ == hex_lower(data@),
{
    hex::encode(data)
}

/// Appends the bytes of `src` to `out`.
pub fn extend_bytes(out: &mut Vec<u8>, src: &[u8])
    ensures
        final(out)@ == old(out)@ + src@,
{
    let ghost start = out@;
    let mut i: usize = 0;
    while i < src.len()
        invariant
            i <= src@.len(),
            out@ == start + src@.subrange(0, i as int),
        decreases src@.len() - i,
    {
        out.push(src[i]);
        i = i + 1;
        assert(out@ =~= start + src@.subrange(0, i as int));
    }
    assert(src@.subrange(0, src@.len() as int) =~= src@);
}

} // verus!
