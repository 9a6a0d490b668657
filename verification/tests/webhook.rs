use http::{HeaderMap, HeaderValue};
use optin_mailer::reply::{Failure, Reply};
use optin_mailer::settings::Settings;
use optin_mailer::signature::Verdict;
use optin_mailer::webhook::{refuse, webhook, webhook_reply};
use std::time::{SystemTime, UNIX_EPOCH};
use svix::webhooks::Webhook;

const SECRET: &str = "whsec_MfKQ9r8GKYqrTwjUPD8ILPZIo2LaLaSw";

fn settings() -> Settings {
    let mut settings = Settings::new();
    settings.webhook_secret = Some(SECRET.to_string());
    settings
}

fn signed(prefix: &str, body: &str) -> HeaderMap {
    let timestamp = SystemTime::now().duration_since(UNIX_EPOCH).unwrap().as_secs() as i64;
    let signature =
        Webhook::new(SECRET).unwrap().sign("msg_1", timestamp, body.as_bytes()).unwrap();
    let mut headers = HeaderMap::new();
    for (name, value) in
        [("id", "msg_1".to_string()), ("timestamp", timestamp.to_string()), ("signature", signature)]
    {
        headers.insert(
            http::HeaderName::from_bytes(format!("{}-{}", prefix, name).as_bytes()).unwrap(),
            HeaderValue::from_str(&value).unwrap(),
        );
    }
    headers
}

fn failed(failure: Failure, error: &str) -> Reply {
    Reply::Failed { failure, error: error.to_string() }
}

#[test]
fn refusals_by_verdict() {
    assert_eq!(
        refuse(Verdict::NoSecret),
        Some(failed(Failure::Internal, "Webhook secret not configured"))
    );
    assert_eq!(refuse(Verdict::BadSecret), Some(failed(Failure::Internal, "Invalid webhook secret")));
    assert_eq!(
        refuse(Verdict::Rejected),
        Some(failed(Failure::BadRequest, "Invalid webhook signature"))
    );
    assert_eq!(refuse(Verdict::Accepted), None);
}

#[test]
fn reply_without_named_signature_ignores_the_verdict() {
    for verdict in [Verdict::NoSecret, Verdict::BadSecret, Verdict::Rejected, Verdict::Accepted] {
        assert_eq!(
            webhook_reply(false, verdict, "email.sent".to_string()),
            failed(Failure::BadRequest, "Missing webhook headers")
        );
    }
}

#[test]
fn reply_follows_the_verdict() {
    assert_eq!(
        webhook_reply(true, Verdict::Accepted, "email.sent".to_string()),
        Reply::Received { kind: "email.sent".to_string() }
    );
    assert_eq!(
        webhook_reply(true, Verdict::Rejected, "email.sent".to_string()),
        failed(Failure::BadRequest, "Invalid webhook signature")
    );
    assert_eq!(
        webhook_reply(true, Verdict::BadSecret, "email.sent".to_string()),
        failed(Failure::Internal, "Invalid webhook secret")
    );
    assert_eq!(
        webhook_reply(true, Verdict::NoSecret, "email.sent".to_string()),
        failed(Failure::Internal, "Webhook secret not configured")
    );
}

#[test]
fn signed_webhook_is_received_with_its_kind() {
    let body = "{\"type\":\"email.delivered\",\"data\":{}}";
    let reply = webhook(&settings(), &signed("svix", body), body);
    assert_eq!(reply, Reply::Received { kind: "email.delivered".to_string() });
    assert_eq!(reply.status(), 200);
}

#[test]
fn signed_webhook_without_a_kind_is_received_as_unknown() {
    for body in ["{\"data\":{}}", "plain text", "{\"type\":null}", ""] {
        let reply = webhook(&settings(), &signed("svix", body), body);
        assert_eq!(reply, Reply::Received { kind: "unknown".to_string() });
    }
}

#[test]
fn webhook_without_headers_is_turned_away_first() {
    let body = "{\"type\":\"email.sent\"}";
    let missing = failed(Failure::BadRequest, "Missing webhook headers");
    assert_eq!(webhook(&settings(), &HeaderMap::new(), body), missing);
    assert_eq!(webhook(&Settings::new(), &HeaderMap::new(), body), missing);
    let mut headers = signed("svix", body);
    headers.remove("svix-signature");
    assert_eq!(webhook(&settings(), &headers, body), missing);
    assert_eq!(webhook(&settings(), &headers, body).status(), 400);
}

#[test]
fn webhook_with_unbranded_headers_is_turned_away() {
    let body = "{\"type\":\"email.sent\"}";
    assert_eq!(
        webhook(&settings(), &signed("webhook", body), body),
        failed(Failure::BadRequest, "Missing webhook headers")
    );
}

#[test]
fn webhook_needs_a_secret() {
    let body = "{\"type\":\"email.sent\"}";
    let reply = webhook(&Settings::new(), &signed("svix", body), body);
    assert_eq!(reply, failed(Failure::Internal, "Webhook secret not configured"));
    assert_eq!(reply.status(), 500);
}

#[test]
fn webhook_needs_a_usable_secret() {
    let body = "{\"type\":\"email.sent\"}";
    let mut settings = Settings::new();
    settings.webhook_secret = Some("whsec_%%%".to_string());
    let reply = webhook(&settings, &signed("svix", body), body);
    assert_eq!(reply, failed(Failure::Internal, "Invalid webhook secret"));
    assert_eq!(reply.status(), 500);
}

#[test]
fn webhook_with_a_changed_body_is_turned_away() {
    let body = "{\"type\":\"email.sent\"}";
    let reply = webhook(&settings(), &signed("svix", body), "{\"type\":\"email.sent\" }");
    assert_eq!(reply, failed(Failure::BadRequest, "Invalid webhook signature"));
    assert_eq!(reply.status(), 400);
}

#[test]
fn webhook_with_a_stale_signature_is_turned_away() {
    let body = "{\"test\": 2432232314}";
    let mut headers = HeaderMap::new();
    headers.insert("svix-id", HeaderValue::from_static("msg_p5jXN8AQM9LWM0D4loKWxJek"));
    headers.insert("svix-timestamp", HeaderValue::from_static("1614265330"));
    headers.insert(
        "svix-signature",
        HeaderValue::from_static("v1,g0hM9SsE+OTPJTGt/tmIKtSyZlE3uFJELVlNIOLJ1OE="),
    );
    assert_eq!(
        webhook(&settings(), &headers, body),
        failed(Failure::BadRequest, "Invalid webhook signature")
    );
}
