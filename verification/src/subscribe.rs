//! The first half of a double opt-in: a pending contact is created, then
//! asked by mail to confirm. Each function decides one step; the caller
//! talks to the provider in between.

use vstd::prelude::*;
use vstd::string::*;
use crate::message::{
    confirm_subject, confirmation_html, confirmation_text, greeting, greeting_text, EmailDraft,
    EmailDraftView, NewContact, NewContactView,
};
use crate::reply::{Failure, Reply, ReplyView};
use crate::settings::{text_view, Settings};

verus! {

/// A request to subscribe an address, with an optional name.
#[derive(Clone, Debug, PartialEq, Eq)]
pub struct SubscribeRequest {
    pub email: String,
    pub name: Option<String>,
}

/// What to do first for a subscription.
#[derive(Clone, Debug, PartialEq, Eq)]
pub enum SubscribeStep {
    /// Ask the provider to create this contact.
    CreateContact(NewContact),
    /// Answer at once.
    Respond(Reply),
}

/// What to do once the provider has answered about the contact.
#[derive(Clone, Debug, PartialEq, Eq)]
pub enum MailStep {
    /// Send this mail to the contact with this id.
    SendMail { contact_id: String, draft: EmailDraft },
    /// Answer at once.
    Respond(Reply),
}

/// The contact that a subscription begins with: in the audience, not yet
/// subscribed, under the name given.
pub open spec fn pending_contact(audience_id: Seq<char>, request: SubscribeRequest)
    -> NewContactView {
    NewContactView {
        audience_id,
        email: request.email@,
        unsubscribed: true,
        first_name: text_view(request.name),
    }
}

/// The mail that asks a subscriber to confirm.
pub open spec fn confirmation_draft(settings: Settings, request: SubscribeRequest)
    -> EmailDraftView {
    EmailDraftView {
        from: settings.sender_text(),
        to: request.email@,
        subject: confirm_subject(),
        html: confirmation_text(greeting_text(text_view(request.name)), settings.confirm_text()),
    }
}

/// The first step fits the settings and the request: without an audience
/// the service answers that it is not configured, else it asks for the
/// pending contact.
pub open spec fn subscribe_begins(
    settings: Settings,
    request: SubscribeRequest,
    step: SubscribeStep,
) -> bool {
    match settings.audience_id {
        None => step matches SubscribeStep::Respond(reply) && reply@ == (ReplyView::Failed {
            failure: Failure::Internal,
            error: "RESEND_AUDIENCE_ID not configured"@,
        }),
        Some(audience_id) => step matches SubscribeStep::CreateContact(contact) && contact@
            == pending_contact(audience_id@, request),
    }
}

/// The second step fits what the provider said about the contact: its
/// refusal is passed on, its id is kept and the confirmation mail written.
pub open spec fn subscribe_continues(
    settings: Settings,
    request: SubscribeRequest,
    created: Result<String, String>,
    step: MailStep,
) -> bool {
    match created {
        Err(error) => step matches MailStep::Respond(reply) && reply@ == (ReplyView::Failed {
            failure: Failure::Internal,
            error: error@,
        }),
        Ok(id) => step matches MailStep::SendMail { contact_id, draft } && contact_id@ == id@
            && draft@ == confirmation_draft(settings, request),
    }
}

/// The answer that ends a subscription, given the contact's id and what the
/// provider said about the mail.
pub open spec fn subscribe_answer(contact_id: Seq<char>, sent: Result<String, String>)
    -> ReplyView {
    match sent {
        Ok(email_id) => ReplyView::ConfirmationSent { contact_id, email_id: email_id@ },
        Err(error) => ReplyView::Failed { failure: Failure::Internal, error: error@ },
    }
}

/// Begins a subscription.
pub fn double_optin_subscribe(settings: &Settings, request: &SubscribeRequest) -> (step:
    SubscribeStep)
    ensures
        subscribe_begins(*settings, *request, step),
{
    match &settings.audience_id {
        None => SubscribeStep::Respond(
            Reply::failed(Failure::Internal, "RESEND_AUDIENCE_ID not configured"),
        ),
        Some(audience_id) => SubscribeStep::CreateContact(
            NewContact {
                audience_id: audience_id.clone(),
                email: request.email.clone(),
                unsubscribed: true,
                first_name: match &request.name {
                    Some(name) => Some(name.clone()),
                    None => None,
                },
            },
        ),
    }
}

/// Goes on with a subscription once the provider has answered about the
/// contact.
pub fn contact_created(
    settings: &Settings,
    request: &SubscribeRequest,
    created: Result<String, String>,
) -> (step: MailStep)
    ensures
        subscribe_continues(*settings, *request, created, step),
{
    match created {
        Err(error) => MailStep::Respond(Reply::Failed { failure: Failure::Internal, error }),
        Ok(contact_id) => {
            let welcome = greeting(&request.name);
            let link = settings.confirm_link();
            let draft = EmailDraft {
                from: settings.sender(),
                to: request.email.clone(),
                subject: String::from_str("Confirm your subscription"),
                html: confirmation_html(welcome.as_str(), link.as_str()),
            };
            MailStep::SendMail { contact_id, draft }
        },
    }
}

/// Ends a subscription once the provider has answered about the mail.
pub fn confirmation_sent(contact_id: String, sent: Result<String, String>) -> (reply: Reply)
    ensures
        reply@ == subscribe_answer(contact_id@, sent),
{
    match sent {
        Ok(email_id) => Reply::ConfirmationSent { contact_id, email_id },
        Err(error) => Reply::Failed { failure: Failure::Internal, error },
    }
}

} // verus!
