//! The second half of a double opt-in: a signed click on the confirmation
//! mail subscribes the contact it was sent to. Each function decides one
//! step; the caller talks to the provider in between.

use vstd::prelude::*;
use vstd::string::*;
use http::HeaderMap;
use crate::event::{kind_in, read_event, recipient_in, Event};
use crate::message::{Contact, ContactUpdate, ContactUpdateView};
use crate::reply::{Failure, Reply, ReplyView};
use crate::settings::{text_view, Settings};
use crate::signature::{carries_signature, secret_accepted, verify_request, Verdict};
use crate::webhook::{failure, refusal, refuse};

verus! {

/// A contact to look up among those of an audience, for an event.
#[derive(Clone, Debug, PartialEq, Eq)]
pub struct Lookup {
    pub audience_id: String,
    pub kind: String,
    pub recipient: String,
}

/// What to do first for a signed event.
#[derive(Clone, Debug, PartialEq, Eq)]
pub enum ConfirmStep {
    /// Ask the provider for the contacts of the audience.
    ListContacts(Lookup),
    /// Answer at once.
    Respond(Reply),
}

/// A contact to subscribe, for an event.
#[derive(Clone, Debug, PartialEq, Eq)]
pub struct Confirmation {
    pub update: ContactUpdate,
    pub kind: String,
    pub recipient: String,
}

/// What to do once the provider has listed the contacts.
#[derive(Clone, Debug, PartialEq, Eq)]
pub enum UpdateStep {
    /// Ask the provider for this change.
    UpdateContact(Confirmation),
    /// Answer at once.
    Respond(Reply),
}

/// The kind of event that confirms a subscription.
pub open spec fn click_kind() -> Seq<char> {
    "email.clicked"@
}

/// The contact at `index` is the first with this address.
pub open spec fn is_first_with(contacts: Seq<Contact>, email: Seq<char>, index: int) -> bool {
    &&& 0 <= index < contacts.len()
    &&& contacts[index].email@ == email
    &&& forall|j: int| 0 <= j < index ==> (#[trigger] contacts[j]).email@ != email
}

/// Some contact has this address.
pub open spec fn holds_email(contacts: Seq<Contact>, email: Seq<char>) -> bool {
    exists|i: int| 0 <= i < contacts.len() && (#[trigger] contacts[i]).email@ == email
}

/// The change that subscribes a contact.
pub open spec fn subscribing(audience_id: Seq<char>, contact_id: Seq<char>) -> ContactUpdateView {
    ContactUpdateView { audience_id, contact_id, unsubscribed: false }
}

/// The first step fits the verdict on the signature, the event and the
/// configured audience. In this order: a request that is not accepted is
/// refused; an event that is no click is ignored; the audience must be
/// configured; the event must name a recipient; then the contacts are asked
/// for.
pub open spec fn confirm_begins(
    audience_id: Option<Seq<char>>,
    verdict: Verdict,
    kind: Seq<char>,
    recipient: Option<Seq<char>>,
    step: ConfirmStep,
) -> bool {
    if verdict != Verdict::Accepted {
        step matches ConfirmStep::Respond(reply) && Some(reply@) == refusal(verdict)
    } else if kind != click_kind() {
        step matches ConfirmStep::Respond(reply) && reply@ == (ReplyView::Ignored { kind })
    } else if audience_id.is_none() {
        step matches ConfirmStep::Respond(reply) && reply@ == failure(
            Failure::Internal,
            "RESEND_AUDIENCE_ID not configured"@,
        )
    } else if recipient.is_none() {
        step matches ConfirmStep::Respond(reply) && reply@ == failure(
            Failure::BadRequest,
            "No recipient in webhook data"@,
        )
    } else {
        step matches ConfirmStep::ListContacts(lookup) && lookup.audience_id@
            == audience_id.unwrap() && lookup.kind@ == kind && lookup.recipient@
            == recipient.unwrap()
    }
}

/// The first step is one that a signed-event request may lead to. A missing
/// and an unusable secret each have one outcome. With a usable secret the
/// request is either rejected or accepted: which of the two depends on the
/// signature and on the time of the check, and an accepted request carries
/// the parts of a signature.
pub open spec fn confirm_outcome(
    settings: Settings,
    headers: HeaderMap,
    body: Seq<char>,
    step: ConfirmStep,
) -> bool {
    let audience_id = text_view(settings.audience_id);
    let kind = kind_in(body);
    let recipient = recipient_in(body);
    match settings.webhook_secret {
        None => confirm_begins(audience_id, Verdict::NoSecret, kind, recipient, step),
        Some(secret) => if !secret_accepted(secret@) {
            confirm_begins(audience_id, Verdict::BadSecret, kind, recipient, step)
        } else {
            ||| confirm_begins(audience_id, Verdict::Rejected, kind, recipient, step)
            ||| (carries_signature(headers) && confirm_begins(
                audience_id,
                Verdict::Accepted,
                kind,
                recipient,
                step,
            ))
        },
    }
}

/// The second step fits what the provider listed: its refusal is passed on;
/// where no contact has the recipient's address nothing is found; else the
/// first such contact is subscribed.
pub open spec fn confirm_continues(
    lookup: Lookup,
    listed: Result<Vec<Contact>, String>,
    step: UpdateStep,
) -> bool {
    match listed {
        Err(error) => step matches UpdateStep::Respond(reply) && reply@ == failure(
            Failure::Internal,
            error@,
        ),
        Ok(contacts) => if !holds_email(contacts@, lookup.recipient@) {
            step matches UpdateStep::Respond(reply) && reply@ == failure(
                Failure::NotFound,
                "Contact not found"@,
            )
        } else {
            step matches UpdateStep::UpdateContact(confirmation) && exists|i: int|
                #![trigger contacts@[i]]
                is_first_with(contacts@, lookup.recipient@, i) && confirmation.update@
                    == subscribing(lookup.audience_id@, contacts@[i].id@) && confirmation.kind@
                    == lookup.kind@ && confirmation.recipient@ == lookup.recipient@
        },
    }
}

/// The answer that ends a confirmation, given what the provider said about
/// the change.
pub open spec fn confirm_answer(confirmation: Confirmation, updated: Result<(), String>)
    -> ReplyView {
    match updated {
        Ok(_) => ReplyView::Confirmed {
            kind: confirmation.kind@,
            email: confirmation.recipient@,
            contact_id: confirmation.update.contact_id@,
        },
        Err(error) => failure(Failure::Internal, error@),
    }
}

/// At most one contact is the first with an address, so what a listing
/// leads to is determined.
pub proof fn first_contact_is_unique(contacts: Seq<Contact>, email: Seq<char>, i: int, j: int)
    requires
        is_first_with(contacts, email, i),
        is_first_with(contacts, email, j),
    ensures
        i == j,
{
    if i < j {
        assert(contacts[i].email@ != email);
    } else if j < i {
        assert(contacts[j].email@ != email);
    }
}

/// The contacts are asked for only after an accepted click that names a
/// recipient, and only with an audience configured.
pub proof fn lists_only_accepted_clicks(
    audience_id: Option<Seq<char>>,
    verdict: Verdict,
    kind: Seq<char>,
    recipient: Option<Seq<char>>,
    step: ConfirmStep,
)
    requires
        confirm_begins(audience_id, verdict, kind, recipient, step),
        step is ListContacts,
    ensures
        verdict == Verdict::Accepted,
        kind == click_kind(),
        audience_id.is_some(),
        recipient.is_some(),
{
}

/// A request leads to the contacts only where a usable secret is
/// configured and the request carries the parts of a signature.
pub proof fn lists_only_signed_requests(
    settings: Settings,
    headers: HeaderMap,
    body: Seq<char>,
    step: ConfirmStep,
)
    requires
        confirm_outcome(settings, headers, body, step),
        step is ListContacts,
    ensures
        settings.webhook_secret matches Some(secret) && secret_accepted(secret@),
        carries_signature(headers),
        kind_in(body) == click_kind(),
        recipient_in(body).is_some(),
        settings.audience_id.is_some(),
{
}

/// Finds the first contact with an address.
pub fn find_contact(contacts: &Vec<Contact>, email: &String) -> (found: Option<usize>)
    ensures
        match found {
            Some(index) => is_first_with(contacts@, email@, index as int),
            None => !holds_email(contacts@, email@),
        },
{
    let mut index: usize = 0;
    while index < contacts.len()
        invariant
            index <= contacts.len(),
            forall|j: int| 0 <= j < index ==> (#[trigger] contacts@[j]).email@ != email@,
        decreases contacts.len() - index,
    {
        if contacts[index].email == *email {
            return Some(index);
        }
        index += 1;
    }
    None
}

/// Decides the first step for an event, given how the check of its
/// signature ended.
pub fn confirm_decision(settings: &Settings, verdict: Verdict, event: Event) -> (step:
    ConfirmStep)
    ensures
        confirm_begins(
            text_view(settings.audience_id),
            verdict,
            event.kind@,
            event.recipient_view(),
            step,
        ),
{
    match refuse(verdict) {
        Some(reply) => {
            return ConfirmStep::Respond(reply);
        },
        None => {},
    }
    let Event { kind, recipient } = event;
    if !(kind == String::from_str("email.clicked")) {
        return ConfirmStep::Respond(Reply::Ignored { kind });
    }
    let audience_id = match &settings.audience_id {
        Some(id) => id.clone(),
        None => {
            return ConfirmStep::Respond(
                Reply::failed(Failure::Internal, "RESEND_AUDIENCE_ID not configured"),
            );
        },
    };
    match recipient {
        Some(recipient) => ConfirmStep::ListContacts(Lookup { audience_id, kind, recipient }),
        None => ConfirmStep::Respond(
            Reply::failed(Failure::BadRequest, "No recipient in webhook data"),
        ),
    }
}

/// Begins the confirmation that a signed-event request may ask for.
pub fn double_optin_webhook(settings: &Settings, headers: &HeaderMap, body: &str) -> (step:
    ConfirmStep)
    ensures
        confirm_outcome(*settings, *headers, body@, step),
{
    let verdict = verify_request(&settings.webhook_secret, headers, body);
    confirm_decision(settings, verdict, read_event(body))
}

/// Goes on with a confirmation once the provider has listed the contacts of
/// the audience.
pub fn contacts_listed(lookup: Lookup, listed: Result<Vec<Contact>, String>) -> (step: UpdateStep)
    ensures
        confirm_continues(lookup, listed, step),
{
    match listed {
        Err(error) => UpdateStep::Respond(Reply::Failed { failure: Failure::Internal, error }),
        Ok(contacts) => match find_contact(&contacts, &lookup.recipient) {
            None => UpdateStep::Respond(Reply::failed(Failure::NotFound, "Contact not found")),
            Some(index) => {
                let update = ContactUpdate {
                    audience_id: lookup.audience_id,
                    contact_id: contacts[index].id.clone(),
                    unsubscribed: false,
                };
                UpdateStep::UpdateContact(
                    Confirmation { update, kind: lookup.kind, recipient: lookup.recipient },
                )
            },
        },
    }
}

/// Ends a confirmation once the provider has answered about the change.
pub fn contact_updated(confirmation: Confirmation, updated: Result<(), String>) -> (reply: Reply)
    ensures
        reply@ == confirm_answer(confirmation, updated),
{
    match updated {
        Ok(_) => Reply::Confirmed {
            kind: confirmation.kind,
            email: confirmation.recipient,
            contact_id: confirmation.update.contact_id,
        },
        Err(error) => Reply::Failed { failure: Failure::Internal, error },
    }
}

} // verus!
