//! The request signer: a lower-case hexadecimal HMAC-SHA256 tag over the
//! timestamp, the method, the path and the body of a request.

use crate::error::GmoCoinError;
use crate::text::{decimal, push_decimal};
use vstd::prelude::*;
use vstd::string::*;
use vstd::utf8::*;

verus! {

/// The longest key and the longest message, in bytes, that are signed.
pub const MAX_SIGNED_LEN: u64 = 0x1000_0000_0000_0000;

/// The character of a hexadecimal digit, in lower case.
pub open spec fn hex_digit(n: int) -> char
    recommends
        0 <= n < 16,
{
    if n < 10 {
        ((48 + n) as u8) as char
    } else {
        ((87 + n) as u8) as char
    }
}

/// The lower-case hexadecimal text of a byte string: two digits for each
/// byte, the high half first.
pub open spec fn hex_lower(bytes: Seq<u8>) -> Seq<char> {
    Seq::new(
        2 * bytes.len(),
        |i: int|
            if i % 2 == 0 {
                hex_digit(bytes[i / 2] as int / 16)
            } else {
                hex_digit(bytes[i / 2] as int % 16)
            },
    )
}

/// A character of `0` to `9` or `a` to `f`.
pub open spec fn is_hex_char(c: char) -> bool {
    ('0' <= c && c <= '9') || ('a' <= c && c <= 'f')
}

/// Hexadecimal text has two characters for each byte, all of them digits or
/// letters from `a` to `f`.
pub proof fn lemma_hex_lower_shape(bytes: Seq<u8>)
    ensures
        hex_lower(bytes).len() == 2 * bytes.len(),
        forall|i: int| 0 <= i < hex_lower(bytes).len() ==> is_hex_char(#[trigger] hex_lower(bytes)[i]),
        is_ascii_chars(hex_lower(bytes)),
{
    assert forall|i: int| 0 <= i < hex_lower(bytes).len() implies is_hex_char(
        #[trigger] hex_lower(bytes)[i],
    ) by {
        let b = bytes[i / 2] as int;
        assert(0 <= b / 16 < 16);
        assert(0 <= b % 16 < 16);
    }
}

/// Different byte strings have different hexadecimal texts.
pub proof fn lemma_hex_lower_injective(a: Seq<u8>, b: Seq<u8>)
    requires
        hex_lower(a) == hex_lower(b),
    ensures
        a == b,
{
    assert(hex_lower(a).len() == 2 * a.len());
    assert(hex_lower(b).len() == 2 * b.len());
    assert forall|k: int| 0 <= k < a.len() implies a[k] == b[k] by {
        let x = a[k] as int;
        let y = b[k] as int;
        assert(hex_lower(a)[2 * k] == hex_digit(x / 16));
        assert(hex_lower(b)[2 * k] == hex_digit(y / 16));
        assert(hex_lower(a)[2 * k + 1] == hex_digit(x % 16));
        assert(hex_lower(b)[2 * k + 1] == hex_digit(y % 16));
        lemma_hex_digit_injective(x / 16, y / 16);
        lemma_hex_digit_injective(x % 16, y % 16);
    }
}

/// Different hexadecimal digits have different characters.
pub proof fn lemma_hex_digit_injective(m: int, n: int)
    requires
        0 <= m < 16,
        0 <= n < 16,
        hex_digit(m) == hex_digit(n),
    ensures
        m == n,
{
}

/// The HMAC-SHA256 tag of a message under a key, as RFC 2104 and FIPS 180-4
/// define it.
pub uninterp spec fn hmac_sha256(key: Seq<u8>, message: Seq<u8>) -> Seq<u8>;

/// Calls `ring::hmac::Key::new` with `ring::hmac::HMAC_SHA256` and then
/// `ring::hmac::sign`. The result is the HMAC-SHA256 tag of the message under
/// the key, which has 32 bytes. `ring` refuses, by a panic, inputs whose
/// length in bits does not fit in 64 bits: the bound keeps well below that.
#[verifier::external_body]
fn hmac_sha256_tag(key: &[u8], message: &[u8]) -> (tag: Vec<u8>)
    requires
        key@.len() <= MAX_SIGNED_LEN,
        message@.len() <= MAX_SIGNED_LEN,
    ensures
        tag@ == hmac_sha256(key@, message@),
        tag@.len() == 32,
{
    let key = ring::hmac::Key::new(ring::hmac::HMAC_SHA256, key);
    ring::hmac::sign(&key, message).as_ref().to_vec()
}

/// Calls `hex::encode`, which writes each byte as two lower-case hexadecimal
/// digits, the high half first.
#[verifier::external_body]
fn hex_encode(bytes: &[u8]) -> (text: String)
    ensures
        text@ == hex_lower(bytes@),
{
    hex::encode(bytes)
}

/// The text that is signed: the decimal timestamp, the method, the path and
/// the body, one after the other with nothing between them.
pub open spec fn signing_text(
    timestamp: u64,
    method: Seq<char>,
    path: Seq<char>,
    body: Seq<char>,
) -> Seq<char> {
    decimal(timestamp as nat) + method + path + body
}

/// The signature of a request: the lower-case hexadecimal HMAC-SHA256 tag of
/// the UTF-8 bytes of [`signing_text`] under the UTF-8 bytes of the secret
/// key.
pub open spec fn signature(
    timestamp: u64,
    method: Seq<char>,
    path: Seq<char>,
    body: Seq<char>,
    secret_key: Seq<char>,
) -> Seq<char> {
    hex_lower(
        hmac_sha256(encode_utf8(secret_key), encode_utf8(signing_text(timestamp, method, path, body))),
    )
}

/// The shape of a signature: the 64 hexadecimal characters of a tag of 32
/// bytes, the letters in lower case.
pub open spec fn is_signature_text(text: Seq<char>) -> bool {
    text.len() == 64 && forall|i: int| 0 <= i < text.len() ==> is_hex_char(#[trigger] text[i])
}

/// Whether a request and a key are short enough to be signed.
pub open spec fn signable(
    timestamp: u64,
    method: Seq<char>,
    path: Seq<char>,
    body: Seq<char>,
    secret_key: Seq<char>,
) -> bool {
    &&& encode_utf8(secret_key).len() <= MAX_SIGNED_LEN
    &&& encode_utf8(signing_text(timestamp, method, path, body)).len() <= MAX_SIGNED_LEN
}

/// The text that is signed, built once so that it can be measured and signed.
fn build_signing_text(timestamp: u64, method: &str, path: &str, body: &str) -> (text: String)
    ensures
        text@ == signing_text(timestamp, method@, path@, body@),
{
    let mut text = String::new();
    push_decimal(&mut text, timestamp);
    text.append(method);
    text.append(path);
    text.append(body);
    text
}

/// Signs the bytes of a text under the bytes of a key.
fn sign_text(text: &str, secret_key: &str) -> (sig: String)
    requires
        encode_utf8(secret_key@).len() <= MAX_SIGNED_LEN,
        encode_utf8(text@).len() <= MAX_SIGNED_LEN,
    ensures
        sig@ == hex_lower(hmac_sha256(encode_utf8(secret_key@), encode_utf8(text@))),
        is_signature_text(sig@),
{
    let tag = hmac_sha256_tag(secret_key.as_bytes(), text.as_bytes());
    hex_encode(tag.as_slice())
}

/// Signs a request: the signature of the timestamp, the method, the path
/// without its query string and the body, under the secret key.
pub fn sign_request(timestamp: u64, method: &str, path: &str, body: &str, secret_key: &str) -> (sig:
    String)
    requires
        signable(timestamp, method@, path@, body@, secret_key@),
    ensures
        sig@ == signature(timestamp, method@, path@, body@, secret_key@),
        is_signature_text(sig@),
{
    let text = build_signing_text(timestamp, method, path, body);
    sign_text(text.as_str(), secret_key)
}

/// Signs a request if it is short enough to be signed, and says so if it is
/// not.
pub fn try_sign_request(
    timestamp: u64,
    method: &str,
    path: &str,
    body: &str,
    secret_key: &str,
) -> (sig: Option<String>)
    ensures
        match sig {
            Some(s) => signable(timestamp, method@, path@, body@, secret_key@) && s@ == signature(
                timestamp,
                method@,
                path@,
                body@,
                secret_key@,
            ) && is_signature_text(s@),
            None => !signable(timestamp, method@, path@, body@, secret_key@),
        },
{
    let text = build_signing_text(timestamp, method, path, body);
    let text_len: usize = text.as_str().as_bytes().len();
    let key_len: usize = secret_key.as_bytes().len();
    if text_len as u64 <= MAX_SIGNED_LEN && key_len as u64 <= MAX_SIGNED_LEN {
        Some(sign_text(text.as_str(), secret_key))
    } else {
        None
    }
}

/// Signing is a function of its five inputs: what signing the same
/// timestamp, method, path and body under the same key gives twice is the
/// same text.
pub proof fn lemma_signature_deterministic(
    first: Seq<char>,
    second: Seq<char>,
    timestamp: u64,
    method: Seq<char>,
    path: Seq<char>,
    body: Seq<char>,
    secret_key: Seq<char>,
)
    requires
        first == signature(timestamp, method, path, body, secret_key),
        second == signature(timestamp, method, path, body, secret_key),
    ensures
        first == second,
{
}

/// Two signatures are equal only if the tags under them are equal: the
/// hexadecimal text adds no collision of its own.
pub proof fn lemma_signature_separates_tags(
    timestamp: u64,
    method: Seq<char>,
    path: Seq<char>,
    body: Seq<char>,
    secret_key: Seq<char>,
    timestamp2: u64,
    method2: Seq<char>,
    path2: Seq<char>,
    body2: Seq<char>,
    secret_key2: Seq<char>,
)
    requires
        signature(timestamp, method, path, body, secret_key) == signature(
            timestamp2,
            method2,
            path2,
            body2,
            secret_key2,
        ),
    ensures
        hmac_sha256(encode_utf8(secret_key), encode_utf8(signing_text(timestamp, method, path, body)))
            == hmac_sha256(
            encode_utf8(secret_key2),
            encode_utf8(signing_text(timestamp2, method2, path2, body2)),
        ),
{
    lemma_hex_lower_injective(
        hmac_sha256(encode_utf8(secret_key), encode_utf8(signing_text(timestamp, method, path, body))),
        hmac_sha256(
            encode_utf8(secret_key2),
            encode_utf8(signing_text(timestamp2, method2, path2, body2)),
        ),
    );
}

/// The milliseconds of a time given as whole seconds and the nanoseconds of
/// the second begun, if they fit in 64 bits.
pub open spec fn millis_of(secs: u64, subsec_nanos: u32) -> Option<u64> {
    if secs * 1000 + subsec_nanos / 1_000_000 <= u64::MAX {
        Some((secs * 1000 + subsec_nanos / 1_000_000) as u64)
    } else {
        None
    }
}

/// The timestamp of a time given as whole seconds since the epoch and the
/// nanoseconds of the second begun.
pub fn millis(secs: u64, subsec_nanos: u32) -> (r: Option<u64>)
    ensures
        r == millis_of(secs, subsec_nanos),
{
    let whole: u64 = match secs.checked_mul(1000) {
        Some(v) => v,
        None => {
            return None;
        },
    };
    let part: u64 = (subsec_nanos / 1_000_000) as u64;
    whole.checked_add(part)
}

/// `std::time::SystemTime`, a reading of the wall clock, of which nothing
/// is seen from here.
#[verifier::external_type_specification]
#[verifier::external_body]
pub struct ExSystemTime(std::time::SystemTime);

/// `std::time::SystemTimeError`, the error of a clock that stands before
/// the instant it is compared with.
#[verifier::external_type_specification]
#[verifier::external_body]
pub struct ExSystemTimeError(std::time::SystemTimeError);

/// `SystemTime::now` reads the wall clock: nothing is known of the result.
pub assume_specification[ std::time::SystemTime::now ]() -> (now: std::time::SystemTime)
;

/// Calls `SystemTime::duration_since` with `UNIX_EPOCH`: the time elapsed
/// since the epoch, or an error where the clock stands before it. Nothing
/// is known of the result.
#[verifier::external_body]
fn since_epoch(now: &std::time::SystemTime) -> (elapsed: Result<
    core::time::Duration,
    std::time::SystemTimeError,
>) {
    now.duration_since(std::time::UNIX_EPOCH)
}

/// `Duration::as_secs` gives the whole seconds of a duration.
pub assume_specification[ core::time::Duration::as_secs ](duration: &core::time::Duration) -> (secs:
    u64)
;

/// `Duration::subsec_nanos` gives the part of a duration below one second,
/// in nanoseconds: it is less than one thousand million.
pub assume_specification[ core::time::Duration::subsec_nanos ](
    duration: &core::time::Duration,
) -> (nanos: u32)
    ensures
        nanos < 1_000_000_000,
;

/// The current time in milliseconds since the Unix epoch. It fails with
/// [`GmoCoinError::SystemTime`] where the clock stands before the epoch, or
/// so far after it that the milliseconds do not fit in 64 bits.
pub fn timestamp() -> (r: Result<u64, GmoCoinError>)
    ensures
        r matches Err(e) ==> e == GmoCoinError::SystemTime,
{
    let now = std::time::SystemTime::now();
    match since_epoch(&now) {
        Ok(elapsed) => timestamp_at(elapsed.as_secs(), elapsed.subsec_nanos()),
        Err(_) => Err(GmoCoinError::SystemTime),
    }
}

/// The timestamp of a clock reading: the milliseconds of the reading, or
/// [`GmoCoinError::SystemTime`] where they do not fit in 64 bits.
pub fn timestamp_at(secs: u64, subsec_nanos: u32) -> (r: Result<u64, GmoCoinError>)
    ensures
        r == match millis_of(secs, subsec_nanos) {
            Some(t) => Ok::<u64, GmoCoinError>(t),
            None => Err::<u64, GmoCoinError>(GmoCoinError::SystemTime),
        },
{
    match millis(secs, subsec_nanos) {
        Some(t) => Ok(t),
        None => Err(GmoCoinError::SystemTime),
    }
}

} // verus!
