//! What the service answers: a status and a flat JSON object.

use vstd::prelude::*;
use vstd::string::*;

verus! {

/// Why a request failed, as far as the status tells.
#[derive(Clone, Copy, Debug, PartialEq, Eq, Structural)]
pub enum Failure {
    /// The request itself is at fault.
    BadRequest,
    /// What the request refers to is not there.
    NotFound,
    /// The service is misconfigured, or the mail provider refused.
    Internal,
}

impl Failure {
    /// The HTTP status of the failure.
    pub open spec fn code(self) -> u16 {
        match self {
            Failure::BadRequest => 400,
            Failure::NotFound => 404,
            Failure::Internal => 500,
        }
    }
}

/// An answer of the service.
#[derive(Clone, Debug, PartialEq, Eq)]
pub enum Reply {
    /// The service is up.
    Healthy,
    /// A message was handed to the provider under this id.
    Sent { id: String },
    /// A signed event of this kind was received.
    Received { kind: String },
    /// A signed event of this kind was received and calls for nothing.
    Ignored { kind: String },
    /// A pending contact was created and asked to confirm.
    ConfirmationSent { contact_id: String, email_id: String },
    /// A click confirmed the subscription of this contact.
    Confirmed { kind: String, email: String, contact_id: String },
    /// The request failed, with the reason in words.
    Failed { failure: Failure, error: String },
}

/// A reply with its texts as sequences of characters.
pub ghost enum ReplyView {
    Healthy,
    Sent { id: Seq<char> },
    Received { kind: Seq<char> },
    Ignored { kind: Seq<char> },
    ConfirmationSent { contact_id: Seq<char>, email_id: Seq<char> },
    Confirmed { kind: Seq<char>, email: Seq<char>, contact_id: Seq<char> },
    Failed { failure: Failure, error: Seq<char> },
}

impl View for Reply {
    type V = ReplyView;

    open spec fn view(&self) -> ReplyView {
        match *self {
            Reply::Healthy => ReplyView::Healthy,
            Reply::Sent { id } => ReplyView::Sent { id: id@ },
            Reply::Received { kind } => ReplyView::Received { kind: kind@ },
            Reply::Ignored { kind } => ReplyView::Ignored { kind: kind@ },
            Reply::ConfirmationSent { contact_id, email_id } => ReplyView::ConfirmationSent {
                contact_id: contact_id@,
                email_id: email_id@,
            },
            Reply::Confirmed { kind, email, contact_id } => ReplyView::Confirmed {
                kind: kind@,
                email: email@,
                contact_id: contact_id@,
            },
            Reply::Failed { failure, error } => ReplyView::Failed { failure, error: error@ },
        }
    }
}

/// An optional reply with its texts as sequences of characters.
pub open spec fn reply_view(reply: Option<Reply>) -> Option<ReplyView> {
    match reply {
        Some(r) => Some(r@),
        None => None,
    }
}

/// The value of one member of a reply's body.
#[derive(Clone, Debug, PartialEq, Eq)]
pub enum FieldValue {
    Flag(bool),
    Text(String),
}

/// One member of a reply's body.
#[derive(Clone, Debug, PartialEq, Eq)]
pub struct Field {
    pub key: String,
    pub value: FieldValue,
}

/// The value of a member, with a text as a sequence of characters.
pub ghost enum FieldValueView {
    Flag(bool),
    Text(Seq<char>),
}

/// A member of a body, with its texts as sequences of characters.
pub ghost struct FieldView {
    pub key: Seq<char>,
    pub value: FieldValueView,
}

impl View for FieldValue {
    type V = FieldValueView;

    open spec fn view(&self) -> FieldValueView {
        match *self {
            FieldValue::Flag(flag) => FieldValueView::Flag(flag),
            FieldValue::Text(text) => FieldValueView::Text(text@),
        }
    }
}

impl View for Field {
    type V = FieldView;

    open spec fn view(&self) -> FieldView {
        FieldView { key: self.key@, value: self.value@ }
    }
}

/// A member that holds a flag.
pub open spec fn flag_member(key: Seq<char>, flag: bool) -> FieldView {
    FieldView { key, value: FieldValueView::Flag(flag) }
}

/// A member that holds a text.
pub open spec fn text_member(key: Seq<char>, text: Seq<char>) -> FieldView {
    FieldView { key, value: FieldValueView::Text(text) }
}

/// The members of a list of fields, in order.
pub open spec fn members_of(fields: Seq<Field>) -> Seq<FieldView> {
    Seq::new(fields.len(), |i: int| fields[i]@)
}

impl ReplyView {
    /// The HTTP status of the reply: 200 unless it failed.
    pub open spec fn status(self) -> u16 {
        match self {
            ReplyView::Failed { failure, .. } => failure.code(),
            _ => 200,
        }
    }

    /// The members of the reply's JSON body, in the order they are written.
    pub open spec fn body(self) -> Seq<FieldView> {
        match self {
            ReplyView::Healthy => seq![text_member("status"@, "ok"@)],
            ReplyView::Sent { id } => seq![flag_member("success"@, true), text_member("id"@, id)],
            ReplyView::Received { kind } => seq![
                flag_member("received"@, true),
                text_member("type"@, kind),
            ],
            ReplyView::Ignored { kind } => seq![
                flag_member("received"@, true),
                text_member("type"@, kind),
                text_member("message"@, "Event type ignored"@),
            ],
            ReplyView::ConfirmationSent { contact_id, email_id } => seq![
                flag_member("success"@, true),
                text_member("message"@, "Confirmation email sent"@),
                text_member("contact_id"@, contact_id),
                text_member("email_id"@, email_id),
            ],
            ReplyView::Confirmed { kind, email, contact_id } => seq![
                flag_member("received"@, true),
                text_member("type"@, kind),
                flag_member("confirmed"@, true),
                text_member("email"@, email),
                text_member("contact_id"@, contact_id),
            ],
            ReplyView::Failed { error, .. } => seq![text_member("error"@, error)],
        }
    }
}

impl Failure {
    /// The HTTP status of the failure.
    pub fn status(self) -> (code: u16)
        ensures
            code == self.code(),
    {
        match self {
            Failure::BadRequest => 400,
            Failure::NotFound => 404,
            Failure::Internal => 500,
        }
    }
}

/// A field that holds a flag.
pub fn flag_field(key: &str, flag: bool) -> (field: Field)
    ensures
        field@ == flag_member(key@, flag),
{
    Field { key: String::from_str(key), value: FieldValue::Flag(flag) }
}

/// A field that holds a copy of a text.
pub fn text_field(key: &str, text: &str) -> (field: Field)
    ensures
        field@ == text_member(key@, text@),
{
    Field { key: String::from_str(key), value: FieldValue::Text(String::from_str(text)) }
}

impl Reply {
    /// A failure with its reason.
    pub fn failed(failure: Failure, error: &str) -> (reply: Reply)
        ensures
            reply@ == (ReplyView::Failed { failure, error: error@ }),
    {
        Reply::Failed { failure, error: String::from_str(error) }
    }

    /// The HTTP status to answer with.
    pub fn status(&self) -> (code: u16)
        ensures
            code == self@.status(),
    {
        match self {
            Reply::Failed { failure, .. } => failure.status(),
            _ => 200,
        }
    }

    /// The members of the JSON object to answer with.
    pub fn body(&self) -> (fields: Vec<Field>)
        ensures
            members_of(fields@) == self@.body(),
    {
        let mut fields: Vec<Field> = Vec::new();
        match self {
            Reply::Healthy => {
                fields.push(text_field("status", "ok"));
            },
            Reply::Sent { id } => {
                fields.push(flag_field("success", true));
                fields.push(text_field("id", id.as_str()));
            },
            Reply::Received { kind } => {
                fields.push(flag_field("received", true));
                fields.push(text_field("type", kind.as_str()));
            },
            Reply::Ignored { kind } => {
                fields.push(flag_field("received", true));
                fields.push(text_field("type", kind.as_str()));
                fields.push(text_field("message", "Event type ignored"));
            },
            Reply::ConfirmationSent { contact_id, email_id } => {
                fields.push(flag_field("success", true));
                fields.push(text_field("message", "Confirmation email sent"));
                fields.push(text_field("contact_id", contact_id.as_str()));
                fields.push(text_field("email_id", email_id.as_str()));
            },
            Reply::Confirmed { kind, email, contact_id } => {
                fields.push(flag_field("received", true));
                fields.push(text_field("type", kind.as_str()));
                fields.push(flag_field("confirmed", true));
                fields.push(text_field("email", email.as_str()));
                fields.push(text_field("contact_id", contact_id.as_str()));
            },
            Reply::Failed { error, .. } => {
                fields.push(text_field("error", error.as_str()));
            },
        }
        assert(members_of(fields@) =~= self@.body());
        fields
    }
}

} // verus!
