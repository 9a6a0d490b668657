//! The mails the service writes and the contact records it asks for.

use vstd::prelude::*;
use vstd::string::*;

verus! {

/// A mail ready to be handed to the provider.
#[derive(Clone, Debug, PartialEq, Eq)]
pub struct EmailDraft {
    pub from: String,
    pub to: String,
    pub subject: String,
    pub html: String,
}

/// A mail with its texts as sequences of characters.
pub ghost struct EmailDraftView {
    pub from: Seq<char>,
    pub to: Seq<char>,
    pub subject: Seq<char>,
    pub html: Seq<char>,
}

impl View for EmailDraft {
    type V = EmailDraftView;

    open spec fn view(&self) -> EmailDraftView {
        EmailDraftView { from: self.from@, to: self.to@, subject: self.subject@, html: self.html@ }
    }
}

/// A contact to create in an audience.
#[derive(Clone, Debug, PartialEq, Eq)]
pub struct NewContact {
    pub audience_id: String,
    pub email: String,
    pub unsubscribed: bool,
    pub first_name: Option<String>,
}

/// A contact to create, with its texts as sequences of characters.
pub ghost struct NewContactView {
    pub audience_id: Seq<char>,
    pub email: Seq<char>,
    pub unsubscribed: bool,
    pub first_name: Option<Seq<char>>,
}

impl View for NewContact {
    type V = NewContactView;

    open spec fn view(&self) -> NewContactView {
        NewContactView {
            audience_id: self.audience_id@,
            email: self.email@,
            unsubscribed: self.unsubscribed,
            first_name: match self.first_name {
                Some(name) => Some(name@),
                None => None,
            },
        }
    }
}

/// A change of a contact's subscription.
#[derive(Clone, Debug, PartialEq, Eq)]
pub struct ContactUpdate {
    pub audience_id: String,
    pub contact_id: String,
    pub unsubscribed: bool,
}

/// A change of a contact, with its texts as sequences of characters.
pub ghost struct ContactUpdateView {
    pub audience_id: Seq<char>,
    pub contact_id: Seq<char>,
    pub unsubscribed: bool,
}

impl View for ContactUpdate {
    type V = ContactUpdateView;

    open spec fn view(&self) -> ContactUpdateView {
        ContactUpdateView {
            audience_id: self.audience_id@,
            contact_id: self.contact_id@,
            unsubscribed: self.unsubscribed,
        }
    }
}

/// A contact as the provider lists it.
#[derive(Clone, Debug, PartialEq, Eq)]
pub struct Contact {
    pub id: String,
    pub email: String,
}

/// The subject of the mail that asks for confirmation.
pub open spec fn confirm_subject() -> Seq<char> {
    "Confirm your subscription"@
}

/// A message wrapped in one HTML paragraph.
pub open spec fn paragraph_text(message: Seq<char>) -> Seq<char> {
    "<p>"@ + message + "</p>"@
}

/// The greeting for a subscriber: by name where a name of at least one
/// character is given.
pub open spec fn greeting_text(name: Option<Seq<char>>) -> Seq<char> {
    match name {
        Some(n) => if n.len() > 0 {
            "Welcome, "@ + n + "!"@
        } else {
            "Welcome!"@
        },
        None => "Welcome!"@,
    }
}

/// The confirmation page up to the greeting.
pub open spec fn page_head() -> Seq<char> {
    "<div style=\"text-align: center; padding: 40px 20px; font-family: Arial, sans-serif;\">\n  <h1>"@
}

/// The confirmation page between the greeting and the link.
pub open spec fn page_middle() -> Seq<char> {
    "</h1>\n  <p>Please confirm your subscription to our newsletter.</p>\n  <a href=\""@
}

/// The confirmation page after the link.
pub open spec fn page_tail() -> Seq<char> {
    "\" style=\"background-color: #18181b; color: #fff; padding: 12px 32px; border-radius: 6px; text-decoration: none; font-weight: bold; display: inline-block;\">Confirm Subscription</a>\n</div>"@
}

/// The confirmation page with a greeting and a link filled in.
pub open spec fn confirmation_text(greeting: Seq<char>, link: Seq<char>) -> Seq<char> {
    page_head() + greeting + page_middle() + link + page_tail()
}

/// Wraps a message in one HTML paragraph. The message is not escaped.
pub fn paragraph(message: &str) -> (html: String)
    ensures
        html@ == paragraph_text(message@),
{
    String::from_str("<p>").concat(message).concat("</p>")
}

/// Greets a subscriber, by name where one is given and not empty.
pub fn greeting(name: &Option<String>) -> (text: String)
    ensures
        text@ == greeting_text(crate::settings::text_view(*name)),
{
    match name {
        Some(n) => {
            if n.as_str().is_empty() {
                String::from_str("Welcome!")
            } else {
                String::from_str("Welcome, ").concat(n.as_str()).concat("!")
            }
        },
        None => String::from_str("Welcome!"),
    }
}

/// Writes the page that asks a subscriber to confirm.
pub fn confirmation_html(greeting: &str, link: &str) -> (html: String)
    ensures
        html@ == confirmation_text(greeting@, link@),
{
    let head = String::from_str(
        "<div style=\"text-align: center; padding: 40px 20px; font-family: Arial, sans-serif;\">\n  <h1>",
    );
    let middle = "</h1>\n  <p>Please confirm your subscription to our newsletter.</p>\n  <a href=\"";
    let tail = "\" style=\"background-color: #18181b; color: #fff; padding: 12px 32px; border-radius: 6px; text-decoration: none; font-weight: bold; display: inline-block;\">Confirm Subscription</a>\n</div>";
    head.concat(greeting).concat(middle).concat(link).concat(tail)
}

} // verus!
