//! What the service is configured with. Each value may be missing.

use vstd::prelude::*;
use vstd::string::*;

verus! {

/// The configuration of the service, as read once per request.
#[derive(Clone, Debug, PartialEq, Eq)]
pub struct Settings {
    /// The sender of every mail.
    pub email_from: Option<String>,
    /// The secret that webhooks are signed with.
    pub webhook_secret: Option<String>,
    /// The audience that subscribers join.
    pub audience_id: Option<String>,
    /// Where the confirmation link leads.
    pub confirm_url: Option<String>,
}

/// The sender used where none is configured.
pub open spec fn default_sender() -> Seq<char> {
    "Acme <onboarding@resend.dev>"@
}

/// The confirmation link used where none is configured.
pub open spec fn default_confirm_url() -> Seq<char> {
    "https://example.com/confirmed"@
}

/// The characters of an optional text.
pub open spec fn text_view(text: Option<String>) -> Option<Seq<char>> {
    match text {
        Some(t) => Some(t@),
        None => None,
    }
}

/// A configured text, or the fallback where it is missing.
pub open spec fn text_or(text: Option<String>, fallback: Seq<char>) -> Seq<char> {
    match text {
        Some(t) => t@,
        None => fallback,
    }
}

impl Settings {
    /// The sender of mails as a sequence of characters.
    pub open spec fn sender_text(&self) -> Seq<char> {
        text_or(self.email_from, default_sender())
    }

    /// The confirmation link as a sequence of characters.
    pub open spec fn confirm_text(&self) -> Seq<char> {
        text_or(self.confirm_url, default_confirm_url())
    }

    /// Settings with nothing configured.
    pub fn new() -> (settings: Settings)
        ensures
            settings.email_from.is_none(),
            settings.webhook_secret.is_none(),
            settings.audience_id.is_none(),
            settings.confirm_url.is_none(),
    {
        Settings { email_from: None, webhook_secret: None, audience_id: None, confirm_url: None }
    }

    /// The sender of mails: the configured one, else the default.
    pub fn sender(&self) -> (from: String)
        ensures
            from@ == self.sender_text(),
    {
        match &self.email_from {
            Some(from) => from.clone(),
            None => String::from_str("Acme <onboarding@resend.dev>"),
        }
    }

    /// The confirmation link: the configured one, else the default.
    pub fn confirm_link(&self) -> (url: String)
        ensures
            url@ == self.confirm_text(),
    {
        match &self.confirm_url {
            Some(url) => url.clone(),
            None => String::from_str("https://example.com/confirmed"),
        }
    }
}

} // verus!
