use optin_mailer::event::{event_kind, first_recipient, read_event};

#[test]
fn reads_kind_and_first_recipient() {
    let body = "{\"type\":\"email.clicked\",\"data\":{\"to\":[\"a@example.com\",\"b@example.com\"]}}";
    let event = read_event(body);
    assert_eq!(event.kind, "email.clicked");
    assert_eq!(event.recipient, Some("a@example.com".to_string()));
}

#[test]
fn body_that_is_no_json_reads_as_unknown() {
    let event = read_event("not json at all");
    assert_eq!(event.kind, "unknown");
    assert_eq!(event.recipient, None);
}

#[test]
fn kind_that_is_no_string_reads_as_unknown() {
    let event = read_event("{\"type\": 7}");
    assert_eq!(event.kind, "unknown");
    let event = read_event("[1, 2]");
    assert_eq!(event.kind, "unknown");
    let event = read_event("{}");
    assert_eq!(event.kind, "unknown");
}

#[test]
fn recipient_needs_an_array_with_a_string_first() {
    assert_eq!(read_event("{\"data\":{\"to\":[]}}").recipient, None);
    assert_eq!(read_event("{\"data\":{\"to\":\"a@example.com\"}}").recipient, None);
    assert_eq!(read_event("{\"data\":{\"to\":{\"0\":\"a@example.com\"}}}").recipient, None);
    assert_eq!(read_event("{\"data\":{\"to\":[5,\"a@example.com\"]}}").recipient, None);
    assert_eq!(read_event("{\"data\":[\"a@example.com\"]}").recipient, None);
    assert_eq!(read_event("{\"to\":[\"a@example.com\"]}").recipient, None);
}

#[test]
fn readers_work_on_a_parsed_value() {
    let value: serde_json::Value =
        serde_json::from_str("{\"type\":\"email.sent\",\"data\":{\"to\":[\"x@example.com\"]}}").unwrap();
    assert_eq!(event_kind(&value), "email.sent");
    assert_eq!(first_recipient(&value), Some("x@example.com".to_string()));
    assert_eq!(event_kind(&serde_json::Value::Null), "unknown");
    assert_eq!(first_recipient(&serde_json::Value::Null), None);
}
