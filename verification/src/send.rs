//! Sending one message, and the health probe.

use vstd::prelude::*;
use crate::message::{paragraph, paragraph_text, EmailDraft, EmailDraftView};
use crate::reply::{Failure, Reply, ReplyView};
use crate::settings::Settings;

verus! {

/// A request to send one message.
#[derive(Clone, Debug, PartialEq, Eq)]
pub struct SendRequest {
    pub to: String,
    pub subject: String,
    pub message: String,
}

/// The mail that a send request asks for: from the configured sender, to
/// the one recipient, with the message as a paragraph.
pub open spec fn send_draft(settings: Settings, request: SendRequest) -> EmailDraftView {
    EmailDraftView {
        from: settings.sender_text(),
        to: request.to@,
        subject: request.subject@,
        html: paragraph_text(request.message@),
    }
}

/// The answer to a send request, given what the provider said: the id of the
/// mail, or its refusal in words.
pub open spec fn send_answer(outcome: Result<String, String>) -> ReplyView {
    match outcome {
        Ok(id) => ReplyView::Sent { id: id@ },
        Err(error) => ReplyView::Failed { failure: Failure::Internal, error: error@ },
    }
}

/// Answers the health probe.
pub fn health() -> (reply: Reply)
    ensures
        reply@ == ReplyView::Healthy,
{
    Reply::Healthy
}

/// Writes the mail that a send request asks for.
pub fn send(settings: &Settings, request: &SendRequest) -> (draft: EmailDraft)
    ensures
        draft@ == send_draft(*settings, *request),
{
    EmailDraft {
        from: settings.sender(),
        to: request.to.clone(),
        subject: request.subject.clone(),
        html: paragraph(request.message.as_str()),
    }
}

/// Answers a send request once the provider has taken or refused the mail.
pub fn send_reply(outcome: Result<String, String>) -> (reply: Reply)
    ensures
        reply@ == send_answer(outcome),
{
    match outcome {
        Ok(id) => Reply::Sent { id },
        Err(error) => Reply::Failed { failure: Failure::Internal, error },
    }
}

} // verus!
