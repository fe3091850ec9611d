//! Calls into the Base64 and HMAC-SHA256 implementations the webhook check
//! relies on, and the system clock.

use vstd::prelude::*;
use vstd::utf8::encode_utf8;

use base64::Engine;
use hmac::Mac;

verus! {

/// The error of a failed Base64 decode.
#[verifier::external_type_specification]
#[verifier::external_body]
pub struct ExDecodeError(base64::DecodeError);

/// A point in time of the system clock.
#[verifier::external_type_specification]
#[verifier::external_body]
pub struct ExSystemTime(std::time::SystemTime);

/// The error of a clock reading before the Unix epoch.
#[verifier::external_type_specification]
#[verifier::external_body]
pub struct ExSystemTimeError(std::time::SystemTimeError);

/// The HMAC-SHA256 tag of `message` under `key`.
pub uninterp spec fn hmac_sha256(key: Seq<u8>, message: Seq<u8>) -> Seq<u8>;

/// The standard (padded) Base64 text of `data`.
pub uninterp spec fn base64_standard_encode(data: Seq<u8>) -> Seq<char>;

/// The bytes that the standard (padded) Base64 text `text` stands for, if it
/// is valid.
pub uninterp spec fn base64_standard_decode(text: Seq<u8>) -> Option<Seq<u8>>;

/// The characters of the standard Base64 alphabet and its padding.
pub open spec fn is_base64_char(c: char) -> bool {
    ('A' <= c <= 'Z') || ('a' <= c <= 'z') || ('0' <= c <= '9') || c == '+' || c == '/' || c
        == '='
}

/// `Hmac::<Sha256>::new_from_slice`, `update` and `finalize` of the `hmac` and
/// `sha2` crates: the HMAC-SHA256 tag of `message` under `key`. HMAC accepts
/// a key of any length, so `new_from_slice` does not fail.
#[verifier::external_body]
pub(crate) fn hmac_sha256_tag(key: &[u8], message: &[u8]) -> (tag: Vec<u8>)
    ensures
        tag@ == hmac_sha256(key@, message@),
{
    let mut mac = hmac::Hmac::<sha2::Sha256>::new_from_slice(key).expect("HMAC takes keys of any length");
    mac.update(message);
    mac.finalize().into_bytes().to_vec()
}

/// `Engine::encode` of `base64::engine::general_purpose::STANDARD`: the padded
/// Base64 text of `data`, made of the standard alphabet and `=` only.
#[verifier::external_body]
pub(crate) fn base64_encode(data: &[u8]) -> (text: String)
    ensures
        text@ == base64_standard_encode(data@),
        forall|i: int| 0 <= i < text@.len() ==> is_base64_char(#[trigger] text@[i]),
{
    base64::engine::general_purpose::STANDARD.encode(data)
}

/// `Engine::decode` of `base64::engine::general_purpose::STANDARD`: the bytes
/// the text stands for, or the error that rejects it. Text that is the
/// standard (padded, canonical) encoding of some bytes decodes back to those
/// bytes.
#[verifier::external_body]
pub(crate) fn base64_decode(text: &[u8]) -> (r: Result<Vec<u8>, base64::DecodeError>)
    ensures
        r is Ok == base64_standard_decode(text@) is Some,
        r matches Ok(bytes) ==> base64_standard_decode(text@) == Some(bytes@),
        forall|d: Seq<u8>|
            text@ == encode_utf8(#[trigger] base64_standard_encode(d)) ==> r is Ok && r->Ok_0@ == d,
{
    base64::engine::general_purpose::STANDARD.decode(text)
}

/// The `Display` text of a Base64 decode error. What the text says is not
/// stated.
#[verifier::external_body]
pub(crate) fn decode_error_text(e: &base64::DecodeError) -> String {
    format!("{e}")
}

/// `SystemTime::now`. Nothing is stated of the reading.
#[verifier::external_body]
pub(crate) fn system_now() -> std::time::SystemTime {
    std::time::SystemTime::now()
}

/// `SystemTime::duration_since(UNIX_EPOCH)`. Nothing is stated of the result.
#[verifier::external_body]
pub(crate) fn since_unix_epoch(t: &std::time::SystemTime) -> Result<
    std::time::Duration,
    std::time::SystemTimeError,
> {
    t.duration_since(std::time::UNIX_EPOCH)
}

/// `Duration::as_secs`. Nothing is stated of the result.
#[verifier::external_body]
pub(crate) fn duration_whole_secs(d: &std::time::Duration) -> u64 {
    d.as_secs()
}

/// The current Unix time in seconds (0 when the clock reads before the
/// epoch). Nothing is stated of the reading.
pub(crate) fn unix_now_secs() -> i64 {
    let now = system_now();
    match since_unix_epoch(&now) {
        Ok(d) => {
            let secs = duration_whole_secs(&d);
            secs as i64
        },
        Err(_) => 0,
    }
}

} // verus!
