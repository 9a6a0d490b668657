use optin_mailer::message::NewContact;
use optin_mailer::reply::{Failure, Reply};
use optin_mailer::settings::Settings;
use optin_mailer::subscribe::{
    confirmation_sent, contact_created, double_optin_subscribe, MailStep, SubscribeRequest,
    SubscribeStep,
};

fn settings() -> Settings {
    let mut settings = Settings::new();
    settings.audience_id = Some("aud_1".to_string());
    settings
}

fn request(name: Option<&str>) -> SubscribeRequest {
    SubscribeRequest { email: "a@example.com".to_string(), name: name.map(|n| n.to_string()) }
}

#[test]
fn subscription_needs_an_audience() {
    let step = double_optin_subscribe(&Settings::new(), &request(Some("Ann")));
    assert_eq!(
        step,
        SubscribeStep::Respond(Reply::Failed {
            failure: Failure::Internal,
            error: "RESEND_AUDIENCE_ID not configured".to_string(),
        })
    );
}

#[test]
fn subscription_begins_with_a_pending_contact() {
    let step = double_optin_subscribe(&settings(), &request(Some("Ann")));
    assert_eq!(
        step,
        SubscribeStep::CreateContact(NewContact {
            audience_id: "aud_1".to_string(),
            email: "a@example.com".to_string(),
            unsubscribed: true,
            first_name: Some("Ann".to_string()),
        })
    );
}

#[test]
fn pending_contact_without_a_name() {
    let step = double_optin_subscribe(&settings(), &request(None));
    assert_eq!(
        step,
        SubscribeStep::CreateContact(NewContact {
            audience_id: "aud_1".to_string(),
            email: "a@example.com".to_string(),
            unsubscribed: true,
            first_name: None,
        })
    );
}

#[test]
fn empty_name_is_kept_on_the_contact() {
    let step = double_optin_subscribe(&settings(), &request(Some("")));
    match step {
        SubscribeStep::CreateContact(contact) => {
            assert_eq!(contact.first_name, Some(String::new()))
        }
        other => panic!("unexpected step {:?}", other),
    }
}

#[test]
fn refused_contact_ends_the_subscription() {
    let step = contact_created(&settings(), &request(Some("Ann")), Err("no such audience".to_string()));
    assert_eq!(
        step,
        MailStep::Respond(Reply::Failed {
            failure: Failure::Internal,
            error: "no such audience".to_string(),
        })
    );
}

#[test]
fn created_contact_is_asked_to_confirm() {
    let step = contact_created(&settings(), &request(Some("Ann")), Ok("ct_1".to_string()));
    match step {
        MailStep::SendMail { contact_id, draft } => {
            assert_eq!(contact_id, "ct_1");
            assert_eq!(draft.from, "Acme <onboarding@resend.dev>");
            assert_eq!(draft.to, "a@example.com");
            assert_eq!(draft.subject, "Confirm your subscription");
            assert_eq!(
                draft.html,
                "<div style=\"text-align: center; padding: 40px 20px; font-family: Arial, sans-serif;\">\n  <h1>Welcome, Ann!</h1>\n  <p>Please confirm your subscription to our newsletter.</p>\n  <a href=\"https://example.com/confirmed\" style=\"background-color: #18181b; color: #fff; padding: 12px 32px; border-radius: 6px; text-decoration: none; font-weight: bold; display: inline-block;\">Confirm Subscription</a>\n</div>"
            );
        }
        other => panic!("unexpected step {:?}", other),
    }
}

#[test]
fn confirmation_mail_uses_the_configured_sender_and_link() {
    let mut settings = settings();
    settings.email_from = Some("News <news@example.com>".to_string());
    settings.confirm_url = Some("https://example.com/yes".to_string());
    let step = contact_created(&settings, &request(None), Ok("ct_1".to_string()));
    match step {
        MailStep::SendMail { draft, .. } => {
            assert_eq!(draft.from, "News <news@example.com>");
            assert!(draft.html.contains("<h1>Welcome!</h1>"));
            assert!(draft.html.contains("<a href=\"https://example.com/yes\" style="));
        }
        other => panic!("unexpected step {:?}", other),
    }
}

#[test]
fn sent_mail_ends_the_subscription() {
    assert_eq!(
        confirmation_sent("ct_1".to_string(), Ok("em_2".to_string())),
        Reply::ConfirmationSent { contact_id: "ct_1".to_string(), email_id: "em_2".to_string() }
    );
}

#[test]
fn refused_mail_ends_the_subscription() {
    assert_eq!(
        confirmation_sent("ct_1".to_string(), Err("bounced".to_string())),
        Reply::Failed { failure: Failure::Internal, error: "bounced".to_string() }
    );
}
