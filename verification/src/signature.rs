use vstd::prelude::*;

use crate::error::Error;
use crate::text::{ascii_chars, ascii_to_string, dec_digits, lemma_dec_digits_ascii, push_decimal};
use hmac::Mac;
use vstd::string::StringSliceAdditionalSpecFns;

verus! {

/// What `base64::decode` returns for a string: the decoded bytes, or nothing
/// when the string is not valid standard base64.
pub uninterp spec fn b64_decode_of(s: Seq<char>) -> Option<Seq<u8>>;

/// What `base64::encode` returns for a byte sequence, as the bytes of the
/// produced text.
pub uninterp spec fn b64_encode_of(bytes: Seq<u8>) -> Seq<u8>;

/// What HMAC-SHA1 returns for a key and a message.
pub uninterp spec fn hmac_sha1_of(key: Seq<u8>, msg: Seq<u8>) -> Seq<u8>;

/// Relies on `base64::decode` (standard alphabet, padded): it returns the
/// decoded bytes exactly when the input is valid standard base64.
#[verifier::external_body]
fn b64_decode(s: &str) -> (r: Option<Vec<u8>>)
    ensures
        match r {
            Some(v) => b64_decode_of(s@) == Some(v@),
            None => b64_decode_of(s@) is None,
        },
{
    base64::decode(s).ok()
}

/// Relies on `base64::encode` (standard alphabet, padded): the result is
/// text over the base64 alphabet `A-Z a-z 0-9 + /` with `=` padding, all of
/// which are ASCII bytes.
#[verifier::external_body]
fn b64_encode(bytes: &[u8]) -> (r: Vec<u8>)
    ensures
        r@ == b64_encode_of(bytes@),
        forall|i: int| 0 <= i < r@.len() ==> r@[i] < 128,
{
    base64::encode(bytes).into_bytes()
}

/// Relies on `hmac::Hmac` over `sha1::Sha1`: the tag is a function of the
/// key and the message alone and is one SHA-1 output, 20 bytes, long.
/// `Hmac::new_from_slice` accepts keys of any length (a long key is hashed
/// first), so it never fails.
#[verifier::external_body]
fn hmac_sha1(key: &[u8], msg: &[u8]) -> (r: Vec<u8>)
    ensures
        r@ == hmac_sha1_of(key@, msg@),
        r@.len() == 20,
{
    let mut mac = <hmac::Hmac<sha1::Sha1> as Mac>::new_from_slice(key).expect(
        "HMAC accepts keys of any length",
    );
    mac.update(msg);
    mac.finalize().into_bytes().to_vec()
}

/// Relies on `std::time::SystemTime`: the wall-clock time in milliseconds
/// since the Unix epoch. A clock reading before the epoch is returned as
/// zero.
#[verifier::external_body]
fn now_unix_millis() -> u64 {
    std::time::SystemTime::now()
        .duration_since(std::time::UNIX_EPOCH)
        .map(|d| d.as_millis() as u64)
        .unwrap_or(0)
}

/// The position-wise XOR of two byte sequences, as long as the shorter.
pub open spec fn xor_zip(a: Seq<u8>, b: Seq<u8>) -> Seq<u8> {
    Seq::new(vstd::math::min(a.len() as int, b.len() as int) as nat, |i: int| a[i] ^ b[i])
}

fn xor_bytes(a: &[u8], b: &[u8]) -> (r: Vec<u8>)
    ensures
        r@ == xor_zip(a@, b@),
{
    let n: usize = if a.len() <= b.len() {
        a.len()
    } else {
        b.len()
    };
    let mut out: Vec<u8> = Vec::new();
    let mut i: usize = 0;
    while i < n
        invariant
            n == vstd::math::min(a@.len() as int, b@.len() as int),
            0 <= i <= n,
            out@ =~= xor_zip(a@, b@).subrange(0, i as int),
        decreases n - i,
    {
        out.push(a[i] ^ b[i]);
        i = i + 1;
    }
    proof {
        assert(out@ =~= xor_zip(a@, b@));
    }
    out
}

/// The first compiled-in key blob.
pub open spec fn key_blob_1() -> Seq<char> {
    "VzeC4H4h+T2f0VI180nVX8x+Mb5HiTtGnKgH52Otj8ZCGDz9jRWyHb6QXK0JskSiOgzQfwTY5xgLLSdUSreaLVMsVVWfxfa8Rw=="@
}

/// The second compiled-in key blob.
pub open spec fn key_blob_2() -> Seq<char> {
    "ZAPnhUkYwQ6y5DdQxWThbvhJHN8msQ1rqJw0ggKdufQjelrKuiGGJI30aswkgCWTDyHkTGK9ynlqTkJ5L4CiGGUabGeo8M6JTQ=="@
}

/// The signing key: the position-wise XOR of the two decoded compiled-in
/// blobs, or nothing when either blob fails base64 decoding.
pub open spec fn stream_key_spec() -> Option<Seq<u8>> {
    match (b64_decode_of(key_blob_1()), b64_decode_of(key_blob_2())) {
        (Some(a), Some(b)) => Some(xor_zip(a, b)),
        _ => None,
    }
}

/// Reconstitutes the signing key from the two compiled-in blobs. Fails with
/// `SignatureKeyError` exactly when a blob is not valid base64, a
/// startup-time invariant that never fails in practice.
pub fn stream_key() -> (r: Result<Vec<u8>, Error>)
    ensures
        match stream_key_spec() {
            Some(k) => r matches Ok(v) && v@ == k,
            None => r matches Err(e) && e == Error::SignatureKeyError,
        },
{
    let key_1 = match b64_decode(
        "VzeC4H4h+T2f0VI180nVX8x+Mb5HiTtGnKgH52Otj8ZCGDz9jRWyHb6QXK0JskSiOgzQfwTY5xgLLSdUSreaLVMsVVWfxfa8Rw==",
    ) {
        Some(v) => v,
        None => {
            return Err(Error::SignatureKeyError);
        },
    };
    let key_2 = match b64_decode(
        "ZAPnhUkYwQ6y5DdQxWThbvhJHN8msQ1rqJw0ggKdufQjelrKuiGGJI30aswkgCWTDyHkTGK9ynlqTkJ5L4CiGGUabGeo8M6JTQ==",
    ) {
        Some(v) => v,
        None => {
            return Err(Error::SignatureKeyError);
        },
    };
    Ok(xor_bytes(key_1.as_slice(), key_2.as_slice()))
}

/// The URL-safe substitute of one base64 output byte: `+` becomes `-`, `/`
/// becomes `_`, `=` becomes `.`, anything else is unchanged.
pub open spec fn url_safe_byte(b: u8) -> u8 {
    if b == 43 {
        45
    } else if b == 47 {
        95
    } else if b == 61 {
        46
    } else {
        b
    }
}

/// The URL-safe substitution applied to every byte.
pub open spec fn url_safe_bytes(s: Seq<u8>) -> Seq<u8> {
    s.map_values(|b: u8| url_safe_byte(b))
}

/// Whatever the input, the URL-safe substitution leaves no `+`, `/` or `=`
/// in its output.
pub proof fn lemma_url_safe_has_no_reserved_bytes(s: Seq<u8>)
    ensures
        forall|i: int|
            0 <= i < url_safe_bytes(s).len() ==> #[trigger] url_safe_bytes(s)[i] != 43
                && url_safe_bytes(s)[i] != 47 && url_safe_bytes(s)[i] != 61,
{
}

/// Whatever the signer hashed, a URL-safe signature string contains no `+`,
/// `/` or `=` character.
pub proof fn lemma_url_safe_signature_has_no_reserved_chars(s: Seq<u8>)
    ensures
        forall|i: int|
            0 <= i < url_safe_bytes(s).len() ==> #[trigger] ascii_chars(url_safe_bytes(s))[i] != '+'
                && ascii_chars(url_safe_bytes(s))[i] != '/' && ascii_chars(url_safe_bytes(s))[i]
                != '=',
{
    lemma_url_safe_has_no_reserved_bytes(s);
    assert forall|i: int|
        0 <= i < url_safe_bytes(s).len() implies #[trigger] ascii_chars(url_safe_bytes(s))[i] != '+'
        && ascii_chars(url_safe_bytes(s))[i] != '/' && ascii_chars(url_safe_bytes(s))[i] != '=' by {
        let b = url_safe_bytes(s)[i];
        assert(b != 43 && b != 47 && b != 61);
        assert(ascii_chars(url_safe_bytes(s))[i] == b as char);
        assert(b as char != '+' && b as char != '/' && b as char != '=') by {
            assert((b as char) as u8 == b);
            assert('+' as u8 == 43 && '/' as u8 == 47 && '=' as u8 == 61);
        }
    }
}

fn url_safe_substitute(s: Vec<u8>) -> (r: Vec<u8>)
    ensures
        r@ == url_safe_bytes(s@),
{
    let mut out: Vec<u8> = Vec::new();
    let mut i: usize = 0;
    let n = s.len();
    while i < n
        invariant
            n == s@.len(),
            0 <= i <= n,
            out@ =~= url_safe_bytes(s@).subrange(0, i as int),
        decreases n - i,
    {
        let b = s[i];
        let mapped: u8 = if b == 43 {
            45
        } else if b == 47 {
            95
        } else if b == 61 {
            46
        } else {
            b
        };
        out.push(mapped);
        i = i + 1;
    }
    proof {
        assert(out@ =~= url_safe_bytes(s@));
    }
    out
}

/// The signature text, as bytes, for a key, a media identifier and a salt:
/// base64 of the HMAC-SHA1 tag of the identifier bytes followed by the salt
/// bytes, with the URL-safe substitution applied when `url_safe` holds.
pub open spec fn signature_bytes(key: Seq<u8>, id: Seq<u8>, salt: Seq<u8>, url_safe: bool) -> Seq<
    u8,
> {
    if url_safe {
        url_safe_bytes(b64_encode_of(hmac_sha1_of(key, id + salt)))
    } else {
        b64_encode_of(hmac_sha1_of(key, id + salt))
    }
}

/// Signs `id ++ salt` with `key`, producing the signature text.
fn sign_bytes(key: &[u8], id: &[u8], salt: &[u8], url_safe: bool) -> (r: String)
    ensures
        r@ == ascii_chars(signature_bytes(key@, id@, salt@, url_safe)),
{
    let mut msg: Vec<u8> = Vec::new();
    msg.extend_from_slice(id);
    msg.extend_from_slice(salt);
    proof {
        assert(msg@ =~= id@ + salt@);
    }
    let tag = hmac_sha1(key, msg.as_slice());
    let encoded = b64_encode(tag.as_slice());
    if url_safe {
        let substituted = url_safe_substitute(encoded);
        ascii_to_string(substituted)
    } else {
        ascii_to_string(encoded)
    }
}

/// Computes the stream signature for a media identifier and a salt string.
///
/// The salt is hashed as its text bytes, so it must be reproduced
/// byte-for-byte between signing and transmission. Fails with
/// `SignatureKeyError` exactly when a compiled-in key blob is malformed.
pub fn compute_signature(id: &str, salt: &str, url_safe: bool) -> (r: Result<String, Error>)
    ensures
        match stream_key_spec() {
            Some(k) => r matches Ok(s) && s@ == ascii_chars(
                signature_bytes(k, id.spec_bytes(), salt.spec_bytes(), url_safe),
            ),
            None => r matches Err(e) && e == Error::SignatureKeyError,
        },
{
    let key = stream_key()?;
    Ok(sign_bytes(key.as_slice(), id.as_bytes(), salt.as_bytes(), url_safe))
}

/// Computes a stream signature and its salt for a media identifier.
///
/// The salt is the current wall-clock time in milliseconds since the epoch,
/// formatted as a plain decimal string; the signature signs the identifier
/// bytes followed by the salt's text bytes. Valid only for a short window.
/// Fails with `SignatureKeyError` exactly when a compiled-in key blob is
/// malformed.
pub fn get_signature(id: &str, url_safe: bool) -> (r: Result<(String, String), Error>)
    ensures
        match stream_key_spec() {
            Some(k) => r matches Ok(p) && exists|n: u64|
                p.1@ == ascii_chars(dec_digits(n as nat)) && p.0@ == ascii_chars(
                    signature_bytes(k, id.spec_bytes(), dec_digits(n as nat), url_safe),
                ),
            None => r matches Err(e) && e == Error::SignatureKeyError,
        },
{
    let key = stream_key()?;
    let now = now_unix_millis();
    let mut salt_bytes: Vec<u8> = Vec::new();
    push_decimal(now, &mut salt_bytes);
    let signature = sign_bytes(key.as_slice(), id.as_bytes(), salt_bytes.as_slice(), url_safe);
    proof {
        lemma_dec_digits_ascii(now as nat);
    }
    let salt = ascii_to_string(salt_bytes);
    Ok((signature, salt))
}

} // verus!
