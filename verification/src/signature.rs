//! Signed webhook requests: the headers that carry a signature and the check
//! of a payload against them.

use vstd::prelude::*;
use vstd::string::*;
use http::header::ToStrError;
use http::HeaderMap;
use http::HeaderValue;
use svix::webhooks::Webhook;
use svix::webhooks::WebhookError;

verus! {

#[verifier::external_type_specification]
#[verifier::external_body]
pub struct ExHeaderValue(HeaderValue);

#[verifier::external_type_specification]
#[verifier::external_body]
pub struct ExToStrError(ToStrError);

#[verifier::external_type_specification]
#[verifier::external_body]
#[verifier::reject_recursive_types(T)]
pub struct ExHeaderMap<T>(HeaderMap<T>);

#[verifier::external_type_specification]
#[verifier::external_body]
pub struct ExWebhook(Webhook);

#[verifier::external_type_specification]
#[verifier::external_body]
pub struct ExWebhookError(WebhookError);

/// What a header map holds: under each header name, in lower case, the first
/// of its values.
pub uninterp spec fn header_values(headers: HeaderMap) -> Map<Seq<char>, HeaderValue>;

/// The text of a header value, where all of it is visible ASCII.
pub uninterp spec fn value_text(value: HeaderValue) -> Option<Seq<char>>;

/// Whether a signing secret can be made into a verifier.
pub uninterp spec fn secret_accepted(secret: Seq<char>) -> bool;

/// A header name as the map keeps it: no upper-case ASCII letter.
pub open spec fn is_lower_name(name: Seq<char>) -> bool {
    forall|i: int| 0 <= i < name.len() ==> !('A' <= #[trigger] name[i] && name[i] <= 'Z')
}

/// `HeaderMap::get` with a string key: the first value held under the name,
/// if there is one. Nothing here is proved: the contract restates the method
/// for names without upper-case letters.
#[verifier::external_body]
fn first_value<'a>(headers: &'a HeaderMap, name: &str) -> (value: Option<&'a HeaderValue>)
    requires
        is_lower_name(name@),
    ensures
        match value {
            Some(v) => header_values(*headers).contains_key(name@) && *v == header_values(
                *headers,
            )[name@],
            None => !header_values(*headers).contains_key(name@),
        },
{
    headers.get(name)
}

/// `HeaderValue::to_str`: the value as text, or the error where some byte of
/// it is not visible ASCII.
#[verifier::external_body]
fn value_str<'a>(value: &'a HeaderValue) -> (text: Result<&'a str, ToStrError>)
    ensures
        match text {
            Ok(t) => value_text(*value) == Some(t@),
            Err(_) => value_text(*value).is_none(),
        },
{
    value.to_str()
}

/// `Webhook::new`: a verifier for the secret, or the error where the secret,
/// without its `whsec_` prefix, is not base64 or decodes to nothing.
#[verifier::external_body]
fn make_verifier(secret: &str) -> (made: Result<Webhook, WebhookError>)
    ensures
        made.is_ok() == secret_accepted(secret@),
{
    Webhook::new(secret)
}

/// `Webhook::verify`: checks the payload against the signature headers and
/// the clock. Acceptance depends on the time of the call, so the contract
/// states only what every accepted request has: an id, a timestamp and a
/// signature that can be read.
#[verifier::external_body]
fn check_signature(verifier: &Webhook, payload: &str, headers: &HeaderMap) -> (checked: Result<
    (),
    WebhookError,
>)
    ensures
        checked.is_ok() ==> carries_signature(*headers),
{
    verifier.verify(payload.as_bytes(), headers)
}

/// The text of the header under a name: there is none where the header is
/// missing and none where its first value is no visible ASCII.
pub open spec fn header_text(headers: HeaderMap, name: Seq<char>) -> Option<Seq<char>> {
    if header_values(headers).contains_key(name) {
        value_text(header_values(headers)[name])
    } else {
        None
    }
}

/// One part of a signature: the header under the `svix-` name where the
/// request has it, else the one under the `webhook-` name.
pub open spec fn signature_part(headers: HeaderMap, branded: Seq<char>, plain: Seq<char>)
    -> Option<Seq<char>> {
    if header_values(headers).contains_key(branded) {
        header_text(headers, branded)
    } else {
        header_text(headers, plain)
    }
}

/// The request has the three parts of a signature, each readable.
pub open spec fn carries_signature(headers: HeaderMap) -> bool {
    &&& signature_part(headers, "svix-id"@, "webhook-id"@).is_some()
    &&& signature_part(headers, "svix-signature"@, "webhook-signature"@).is_some()
    &&& signature_part(headers, "svix-timestamp"@, "webhook-timestamp"@).is_some()
}

/// The request names its signature in the three `svix-` headers, each
/// readable.
pub open spec fn names_signature(headers: HeaderMap) -> bool {
    &&& header_text(headers, "svix-id"@).is_some()
    &&& header_text(headers, "svix-timestamp"@).is_some()
    &&& header_text(headers, "svix-signature"@).is_some()
}

/// How the check of a request's signature ended.
#[derive(Clone, Copy, Debug, PartialEq, Eq, Structural)]
pub enum Verdict {
    /// No secret is configured.
    NoSecret,
    /// The configured secret cannot be used.
    BadSecret,
    /// The request does not carry a valid, timely signature of its body.
    Rejected,
    /// The request is signed with the secret.
    Accepted,
}

/// A verdict that the secret and the headers allow. With a usable secret
/// both endings are open: acceptance also depends on the signature and on
/// the time of the check.
pub open spec fn verdict_fits(verdict: Verdict, secret: Option<String>, headers: HeaderMap)
    -> bool {
    match secret {
        None => verdict == Verdict::NoSecret,
        Some(s) => if !secret_accepted(s@) {
            verdict == Verdict::BadSecret
        } else {
            verdict == Verdict::Rejected || (verdict == Verdict::Accepted && carries_signature(
                headers,
            ))
        },
    }
}

/// Reads the header under a name as text.
fn read_header(headers: &HeaderMap, name: &str) -> (text: Option<String>)
    requires
        is_lower_name(name@),
    ensures
        match text {
            Some(t) => header_text(*headers, name@) == Some(t@),
            None => header_text(*headers, name@).is_none(),
        },
{
    match first_value(headers, name) {
        Some(value) => match value_str(value) {
            Ok(text) => Some(String::from_str(text)),
            Err(_) => None,
        },
        None => None,
    }
}

/// Whether a request names its signature in the three `svix-` headers, each
/// with a readable value.
pub fn has_signature_headers(headers: &HeaderMap) -> (present: bool)
    ensures
        present == names_signature(*headers),
{
    proof {
        reveal_strlit("svix-id");
        reveal_strlit("svix-timestamp");
        reveal_strlit("svix-signature");
    }
    let id = read_header(headers, "svix-id");
    let timestamp = read_header(headers, "svix-timestamp");
    let signature = read_header(headers, "svix-signature");
    id.is_some() && timestamp.is_some() && signature.is_some()
}

/// Checks the signature of a request against the configured secret.
pub fn verify_request(secret: &Option<String>, headers: &HeaderMap, body: &str) -> (verdict:
    Verdict)
    ensures
        verdict_fits(verdict, *secret, *headers),
{
    match secret {
        None => Verdict::NoSecret,
        Some(s) => match make_verifier(s.as_str()) {
            Err(_) => Verdict::BadSecret,
            Ok(verifier) => match check_signature(&verifier, body, headers) {
                Err(_) => Verdict::Rejected,
                Ok(_) => Verdict::Accepted,
            },
        },
    }
}

} // verus!
