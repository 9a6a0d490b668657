//! What a webhook body tells: the kind of the event and, for a click, the
//! first address the mail went to.

use vstd::prelude::*;
use vstd::string::*;
use serde_json::Value;
use crate::json::{items_of, json_document, json_list, json_members, json_text, member, parse_document, text_of};

verus! {

/// The kind reported for a body that names none.
pub open spec fn unknown_kind() -> Seq<char> {
    "unknown"@
}

/// The member of an object under a key, if the value is an object with it.
pub open spec fn member_at(value: Value, key: Seq<char>) -> Option<Value> {
    if json_members(value).contains_key(key) {
        Some(json_members(value)[key])
    } else {
        None
    }
}

/// The kind of an event: its member `type` where that is a string, else
/// `unknown`.
pub open spec fn kind_of(value: Value) -> Seq<char> {
    match member_at(value, "type"@) {
        Some(kind) => match json_text(kind) {
            Some(text) => text,
            None => unknown_kind(),
        },
        None => unknown_kind(),
    }
}

/// The first recipient of an event: the first item of the array `to` inside
/// the object `data`, where all of that is there and the item is a string.
pub open spec fn recipient_of(value: Value) -> Option<Seq<char>> {
    match member_at(value, "data"@) {
        Some(data) => match member_at(data, "to"@) {
            Some(to) => match json_list(to) {
                Some(items) => if items.len() > 0 {
                    json_text(items[0])
                } else {
                    None
                },
                None => None,
            },
            None => None,
        },
        None => None,
    }
}

/// The kind that a body reports; `unknown` where the body is no JSON.
pub open spec fn kind_in(body: Seq<char>) -> Seq<char> {
    match json_document(body) {
        Some(value) => kind_of(value),
        None => unknown_kind(),
    }
}

/// The first recipient that a body names; none where the body is no JSON.
pub open spec fn recipient_in(body: Seq<char>) -> Option<Seq<char>> {
    match json_document(body) {
        Some(value) => recipient_of(value),
        None => None,
    }
}

/// A webhook event, reduced to what the service acts on.
#[derive(Clone, Debug, PartialEq, Eq)]
pub struct Event {
    pub kind: String,
    pub recipient: Option<String>,
}

impl Event {
    /// The recipient as a sequence of characters, if there is one.
    pub open spec fn recipient_view(&self) -> Option<Seq<char>> {
        match self.recipient {
            Some(address) => Some(address@),
            None => None,
        }
    }

    /// This event is what `body` holds.
    pub open spec fn reads(&self, body: Seq<char>) -> bool {
        &&& self.kind@ == kind_in(body)
        &&& self.recipient_view() == recipient_in(body)
    }
}

/// Reads the kind of a parsed event.
pub fn event_kind(value: &Value) -> (kind: String)
    ensures
        kind@ == kind_of(*value),
{
    match text_of(member(value, "type")) {
        Some(text) => String::from_str(text),
        None => String::from_str("unknown"),
    }
}

/// Reads the first recipient of a parsed event.
pub fn first_recipient(value: &Value) -> (recipient: Option<String>)
    ensures
        match recipient {
            Some(address) => recipient_of(*value) == Some(address@),
            None => recipient_of(*value).is_none(),
        },
{
    let data = member(value, "data");
    let to = member(data, "to");
    match items_of(to) {
        Some(items) => {
            if items.len() > 0 {
                match text_of(&items[0]) {
                    Some(text) => Some(String::from_str(text)),
                    None => None,
                }
            } else {
                None
            }
        },
        None => None,
    }
}

/// Reads a webhook body. A body that is no JSON document reads as an event
/// of unknown kind without a recipient.
pub fn read_event(body: &str) -> (event: Event)
    ensures
        event.reads(body@),
{
    match parse_document(body) {
        Ok(value) => {
            let kind = event_kind(&value);
            let recipient = first_recipient(&value);
            Event { kind, recipient }
        },
        Err(_) => Event { kind: String::from_str("unknown"), recipient: None },
    }
}

} // verus!
