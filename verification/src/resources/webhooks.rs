//! Webhook signature verification.
//!
//! OpenAI signs webhook payloads with HMAC-SHA256: the signature is in the
//! `webhook-signature` header, the timestamp in `webhook-timestamp`.

use vstd::prelude::*;
use vstd::utf8::encode_utf8;

use crate::encoding::{
    base64_decode, base64_encode, base64_standard_decode, base64_standard_encode,
    decode_error_text, hmac_sha256, hmac_sha256_tag, is_base64_char, unix_now_secs,
};
use crate::error::OpenAIError;
use crate::text::{
    find_piece, has_piece, lemma_split_on_join, lemma_split_on_single, nat_to_decimal,
    parse_i64, parse_i64_spec, push_decimal, split_on, strip_prefix, strip_prefix_spec,
};

verus! {

/// Webhook verification helper holding the decoded signing secret.
pub struct Webhooks {
    secret: Vec<u8>,
}

/// How far, in seconds, a webhook timestamp may be from the current time.
pub open spec fn timestamp_tolerance_secs() -> int {
    300
}

/// The secret text without its optional `whsec_` prefix.
pub open spec fn secret_text(secret: Seq<char>) -> Seq<char> {
    match strip_prefix_spec(secret, "whsec_"@) {
        Some(t) => t,
        None => secret,
    }
}

/// The bytes that are signed: the timestamp header, a `.`, then the raw
/// payload bytes.
pub open spec fn signed_content(timestamp: Seq<char>, payload: Seq<u8>) -> Seq<u8> {
    encode_utf8(timestamp) + seq![46u8] + payload
}

/// The Base64 HMAC-SHA256 signature expected for a payload.
pub open spec fn expected_signature(secret: Seq<u8>, timestamp: Seq<char>, payload: Seq<u8>) -> Seq<
    char,
> {
    base64_standard_encode(hmac_sha256(secret, signed_content(timestamp, payload)))
}

/// The message of a timestamp outside the tolerance.
pub open spec fn timestamp_out_of_range_message(delta: nat) -> Seq<char> {
    "webhook timestamp too old or too new (delta="@ + nat_to_decimal(delta) + "s, tolerance="@
        + nat_to_decimal(300) + "s)"@
}

/// The outcome of a webhook check at the given time: the timestamp header
/// must parse as an integer within the tolerance of `now`, and one of the
/// space-separated entries of the signature header must be `v1,` followed by
/// the expected signature. An error carries its message.
pub open spec fn webhook_outcome(
    secret: Seq<u8>,
    payload: Seq<u8>,
    signature_header: Seq<char>,
    timestamp_header: Seq<char>,
    now: int,
) -> Result<(), Seq<char>> {
    match parse_i64_spec(timestamp_header) {
        None => Err("invalid webhook-timestamp header"@),
        Some(t) => {
            let delta = if now - t < 0 {
                t - now
            } else {
                now - t
            };
            if delta > timestamp_tolerance_secs() {
                Err(timestamp_out_of_range_message(delta as nat))
            } else if has_piece(
                signature_header,
                ' ',
                "v1,"@ + expected_signature(secret, timestamp_header, payload),
            ) {
                Ok(())
            } else {
                Err("webhook signature verification failed"@)
            }
        },
    }
}

/// Whether a result is the given outcome, an error being `InvalidArgument`
/// with the outcome's message.
pub open spec fn result_is_outcome(r: Result<(), OpenAIError>, o: Result<(), Seq<char>>) -> bool {
    match r {
        Ok(_) => o is Ok,
        Err(OpenAIError::InvalidArgument(m)) => o == Err::<(), Seq<char>>(m@),
        Err(_) => false,
    }
}

fn extend_bytes(v: &mut Vec<u8>, s: &[u8])
    ensures
        final(v)@ == old(v)@ + s@,
{
    let ghost before = v@;
    let n = s.len();
    let mut i: usize = 0;
    while i < n
        invariant
            i <= n,
            n == s@.len(),
            v@ == before + s@.take(i as int),
        decreases n - i,
    {
        v.push(s[i]);
        proof {
            assert(s@.take(i + 1) =~= s@.take(i as int).push(s@[i as int]));
        }
        i = i + 1;
    }
    assert(s@.take(n as int) =~= s@);
}

fn signed_content_bytes(timestamp_header: &str, payload: &[u8]) -> (content: Vec<u8>)
    ensures
        content@ == signed_content(timestamp_header@, payload@),
{
    let mut content: Vec<u8> = Vec::new();
    extend_bytes(&mut content, timestamp_header.as_bytes());
    content.push(46u8);
    extend_bytes(&mut content, payload);
    assert(content@ =~= signed_content(timestamp_header@, payload@));
    content
}


/// An entry without spaces is found on its own, and after any other entries
/// separated from it by a space.
pub proof fn law_signature_entry_found(others: Seq<char>, entry: Seq<char>)
    requires
        forall|i: int| 0 <= i < entry.len() ==> entry[i] != ' ',
    ensures
        has_piece(entry, ' ', entry),
        has_piece(others.push(' ') + entry, ' ', entry),
{
    lemma_split_on_single(entry, ' ');
    assert(split_on(entry, ' ')[0] == entry);
    lemma_split_on_join(others, ' ', entry);
    crate::text::lemma_split_on_nonempty(others, ' ');
    let joined = split_on(others, ' ') + split_on(entry, ' ');
    assert(joined[split_on(others, ' ').len() as int] == entry);
}

/// A fresh webhook carrying the expected signature is accepted, whether the
/// signature header holds only that entry or other entries before it
/// (a Base64 signature holds no space).
pub proof fn law_fresh_expected_signature_accepted(
    secret: Seq<u8>,
    payload: Seq<u8>,
    timestamp_header: Seq<char>,
    now: int,
    others: Seq<char>,
)
    requires
        parse_i64_spec(timestamp_header) matches Some(t) && -300 <= now - t <= 300,
        forall|i: int|
            0 <= i < expected_signature(secret, timestamp_header, payload).len()
                ==> #[trigger] expected_signature(secret, timestamp_header, payload)[i] != ' ',
    ensures
        webhook_outcome(
            secret,
            payload,
            "v1,"@ + expected_signature(secret, timestamp_header, payload),
            timestamp_header,
            now,
        ) == Ok::<(), Seq<char>>(()),
        webhook_outcome(
            secret,
            payload,
            others.push(' ') + ("v1,"@ + expected_signature(secret, timestamp_header, payload)),
            timestamp_header,
            now,
        ) == Ok::<(), Seq<char>>(()),
{
    let e = expected_signature(secret, timestamp_header, payload);
    let entry = "v1,"@ + e;
    reveal_strlit("v1,");
    assert forall|i: int| 0 <= i < entry.len() implies entry[i] != ' ' by {
        if i >= 3 {
            assert(entry[i] == e[i - 3]);
        }
    }
    law_signature_entry_found(others, entry);
}

/// A timestamp further than the tolerance from the current time is rejected,
/// whatever the signature.
pub proof fn law_stale_timestamp_rejected(
    secret: Seq<u8>,
    payload: Seq<u8>,
    signature_header: Seq<char>,
    timestamp_header: Seq<char>,
    now: int,
)
    requires
        parse_i64_spec(timestamp_header) matches Some(t) && (now - t > 300 || t - now > 300),
    ensures
        webhook_outcome(secret, payload, signature_header, timestamp_header, now) is Err,
{
}

/// A timestamp header that is not a decimal integer is rejected, whatever the
/// signature.
pub proof fn law_malformed_timestamp_rejected(
    secret: Seq<u8>,
    payload: Seq<u8>,
    signature_header: Seq<char>,
    timestamp_header: Seq<char>,
    now: int,
)
    requires
        parse_i64_spec(timestamp_header) is None,
    ensures
        webhook_outcome(secret, payload, signature_header, timestamp_header, now) == Err::<
            (),
            Seq<char>,
        >("invalid webhook-timestamp header"@),
{
}

impl Webhooks {
    /// The decoded signing secret.
    pub closed spec fn secret_bytes(&self) -> Seq<u8> {
        self.secret@
    }

    /// A verifier for the given secret, which may carry a `whsec_` prefix;
    /// the rest is standard Base64.
    pub fn new(secret: &str) -> (r: Result<Webhooks, OpenAIError>)
        ensures
            r is Ok == base64_standard_decode(encode_utf8(secret_text(secret@))) is Some,
            r matches Ok(w) ==> base64_standard_decode(encode_utf8(secret_text(secret@))) == Some(
                w.secret_bytes(),
            ),
            r matches Err(e) ==> e matches OpenAIError::InvalidArgument(m)
                && "invalid webhook secret: "@.is_prefix_of(m@),
            forall|d: Seq<u8>|
                secret_text(secret@) == #[trigger] base64_standard_encode(d) ==> (r matches Ok(w)
                    && w.secret_bytes() == d),
            forall|d: Seq<u8>|
                secret@ == "whsec_"@ + #[trigger] base64_standard_encode(d) ==> (r matches Ok(w)
                    && w.secret_bytes() == d),
    {
        proof {
            reveal_strlit("whsec_");
            assert forall|d: Seq<u8>| secret@ == "whsec_"@ + #[trigger] base64_standard_encode(d)
                implies secret_text(secret@) == base64_standard_encode(d) by {
                assert(secret@.take(6) =~= "whsec_"@);
                assert(secret@.skip(6) =~= base64_standard_encode(d));
            }
        }
        let raw = match strip_prefix(secret, "whsec_") {
            Some(rest) => rest,
            None => secret,
        };
        match base64_decode(raw.as_bytes()) {
            Ok(decoded) => Ok(Webhooks { secret: decoded }),
            Err(e) => {
                let mut message = String::from_str("invalid webhook secret: ");
                let detail = decode_error_text(&e);
                message.append(detail.as_str());
                proof {
                    reveal_strlit("invalid webhook secret: ");
                    assert(message@.subrange(0, "invalid webhook secret: "@.len() as int)
                        =~= "invalid webhook secret: "@);
                }
                Err(OpenAIError::InvalidArgument(message))
            },
        }
    }

    /// Verifies a webhook signature against the current time.
    ///
    /// `payload` is the raw request body, `signature_header` the
    /// `webhook-signature` header (such as `v1,<base64>`, several entries
    /// separated by spaces), `timestamp_header` the `webhook-timestamp`
    /// header (Unix seconds).
    pub fn verify(&self, payload: &[u8], signature_header: &str, timestamp_header: &str) -> (r:
        Result<(), OpenAIError>)
        ensures
            exists|now: i64|
                result_is_outcome(
                    r,
                    webhook_outcome(
                        self.secret_bytes(),
                        payload@,
                        signature_header@,
                        timestamp_header@,
                        now as int,
                    ),
                ),
    {
        let now = unix_now_secs();
        self.verify_at(payload, signature_header, timestamp_header, now)
    }

    /// Verifies a webhook signature as of the Unix time `now` (seconds).
    pub fn verify_at(
        &self,
        payload: &[u8],
        signature_header: &str,
        timestamp_header: &str,
        now: i64,
    ) -> (r: Result<(), OpenAIError>)
        ensures
            result_is_outcome(
                r,
                webhook_outcome(
                    self.secret_bytes(),
                    payload@,
                    signature_header@,
                    timestamp_header@,
                    now as int,
                ),
            ),
            parse_i64_spec(timestamp_header@) matches Some(t) && -300 <= now - t <= 300 && (
            signature_header@ == "v1,"@ + expected_signature(
                self.secret_bytes(),
                timestamp_header@,
                payload@,
            ) || exists|others: Seq<char>|
                signature_header@ == others.push(' ') + ("v1,"@ + expected_signature(
                    self.secret_bytes(),
                    timestamp_header@,
                    payload@,
                ))) ==> r is Ok,
    {
        let timestamp = match parse_i64(timestamp_header) {
            Some(t) => t,
            None => {
                return Err(
                    OpenAIError::InvalidArgument(String::from_str("invalid webhook-timestamp header")),
                );
            },
        };
        let diff: i128 = now as i128 - timestamp as i128;
        let delta: i128 = if diff < 0 {
            -diff
        } else {
            diff
        };
        if delta > 300 {
            let mut message = String::from_str("webhook timestamp too old or too new (delta=");
            push_decimal(&mut message, delta as u128);
            message.append("s, tolerance=");
            push_decimal(&mut message, 300);
            message.append("s)");
            return Err(OpenAIError::InvalidArgument(message));
        }
        let content = signed_content_bytes(timestamp_header, payload);
        let tag = hmac_sha256_tag(self.secret.as_slice(), content.as_slice());
        let expected = base64_encode(tag.as_slice());
        proof {
            let e = expected_signature(self.secret@, timestamp_header@, payload@);
            assert(expected@ == e);
            assert forall|i: int| 0 <= i < e.len() implies #[trigger] e[i] != ' ' by {
                assert(is_base64_char(expected@[i]));
            }
            if exists|others: Seq<char>| signature_header@ == others.push(' ') + ("v1,"@ + e) {
                let others = choose|others: Seq<char>| signature_header@ == others.push(' ') + (
                "v1,"@ + e);
                law_fresh_expected_signature_accepted(
                    self.secret@,
                    payload@,
                    timestamp_header@,
                    now as int,
                    others,
                );
            } else {
                law_fresh_expected_signature_accepted(
                    self.secret@,
                    payload@,
                    timestamp_header@,
                    now as int,
                    seq![],
                );
            }
        }
        let mut target = String::from_str("v1,");
        target.append(expected.as_str());
        if find_piece(signature_header, ' ', target.as_str()) {
            Ok(())
        } else {
            Err(OpenAIError::InvalidArgument(String::from_str("webhook signature verification failed")))
        }
    }
}

} // verus!
