//! Relaying a signed webhook: the request must name its signature, the
//! signature must hold, and the answer repeats the kind of the event.

use vstd::prelude::*;
use vstd::string::*;
use http::HeaderMap;
use crate::event::{kind_in, read_event};
use crate::reply::{reply_view, Failure, Reply, ReplyView};
use crate::settings::Settings;
use crate::signature::{has_signature_headers, names_signature, secret_accepted, verify_request, Verdict};

verus! {

/// A failure with its reason.
pub open spec fn failure(failure: Failure, error: Seq<char>) -> ReplyView {
    ReplyView::Failed { failure, error }
}

/// The answer that turns a request away for its signature: none where the
/// signature was accepted.
pub open spec fn refusal(verdict: Verdict) -> Option<ReplyView> {
    match verdict {
        Verdict::NoSecret => Some(failure(Failure::Internal, "Webhook secret not configured"@)),
        Verdict::BadSecret => Some(failure(Failure::Internal, "Invalid webhook secret"@)),
        Verdict::Rejected => Some(failure(Failure::BadRequest, "Invalid webhook signature"@)),
        Verdict::Accepted => None,
    }
}

/// The answer to a webhook: a request that does not name its signature is
/// turned away before the secret is looked at; then the verdict decides.
pub open spec fn webhook_answer(named: bool, verdict: Verdict, kind: Seq<char>) -> ReplyView {
    if !named {
        failure(Failure::BadRequest, "Missing webhook headers"@)
    } else {
        match refusal(verdict) {
            Some(reply) => reply,
            None => ReplyView::Received { kind },
        }
    }
}

/// Turns a request away for its signature, unless that was accepted.
pub fn refuse(verdict: Verdict) -> (reply: Option<Reply>)
    ensures
        reply_view(reply) == refusal(verdict),
{
    match verdict {
        Verdict::NoSecret => Some(
            Reply::failed(Failure::Internal, "Webhook secret not configured"),
        ),
        Verdict::BadSecret => Some(Reply::failed(Failure::Internal, "Invalid webhook secret")),
        Verdict::Rejected => Some(Reply::failed(Failure::BadRequest, "Invalid webhook signature")),
        Verdict::Accepted => None,
    }
}

/// Answers a webhook, given whether it names its signature, how the check
/// of the signature ended and the kind of the event.
pub fn webhook_reply(named: bool, verdict: Verdict, kind: String) -> (reply: Reply)
    ensures
        reply@ == webhook_answer(named, verdict, kind@),
{
    if !named {
        Reply::failed(Failure::BadRequest, "Missing webhook headers")
    } else {
        match refuse(verdict) {
            Some(reply) => reply,
            None => Reply::Received { kind },
        }
    }
}

/// What a webhook request may be answered with. A request that does not
/// name its signature, a missing secret and an unusable secret each have one
/// answer. With a usable secret the request is either turned away or
/// received with the kind of its event: which of the two depends on the
/// signature and on the time of the check.
pub open spec fn webhook_outcome(
    reply: ReplyView,
    secret: Option<String>,
    headers: HeaderMap,
    kind: Seq<char>,
) -> bool {
    if !names_signature(headers) {
        reply == failure(Failure::BadRequest, "Missing webhook headers"@)
    } else {
        match secret {
            None => reply == webhook_answer(true, Verdict::NoSecret, kind),
            Some(s) => if !secret_accepted(s@) {
                reply == webhook_answer(true, Verdict::BadSecret, kind)
            } else {
                ||| reply == webhook_answer(true, Verdict::Rejected, kind)
                ||| reply == webhook_answer(true, Verdict::Accepted, kind)
            },
        }
    }
}

/// An event is received only from a request that names its signature, with
/// a usable secret configured; the answer then repeats the kind of the event.
pub proof fn receives_only_signed(
    reply: ReplyView,
    secret: Option<String>,
    headers: HeaderMap,
    kind: Seq<char>,
)
    requires
        webhook_outcome(reply, secret, headers, kind),
        reply is Received,
    ensures
        names_signature(headers),
        secret matches Some(s) && secret_accepted(s@),
        reply == (ReplyView::Received { kind }),
{
}

/// Answers a webhook request.
pub fn webhook(settings: &Settings, headers: &HeaderMap, body: &str) -> (reply: Reply)
    ensures
        webhook_outcome(reply@, settings.webhook_secret, *headers, kind_in(body@)),
{
    let named = has_signature_headers(headers);
    if !named {
        return webhook_reply(false, Verdict::Rejected, String::from_str("unknown"));
    }
    let verdict = verify_request(&settings.webhook_secret, headers, body);
    match verdict {
        Verdict::Accepted => webhook_reply(true, verdict, read_event(body).kind),
        _ => webhook_reply(true, verdict, String::from_str("unknown")),
    }
}

} // verus!
