use zero2prod_core::confirmation::{confirm, confirmation_status, Parameters};
use zero2prod_core::newsletter::{
    finish_publish, plan_deliveries, publish, validate_newsletter, ContentField, ContentPayload,
    Delivery, JsonField, Newsletter, NewsletterPayload, PayloadField, PublishError,
};
use zero2prod_core::subscriber::{Subscriber, SubscriberStore, SubscriptionStatus};
use zero2prod_core::token::TokenStore;

fn text(s: &str) -> JsonField {
    JsonField::Text(s.to_string())
}

fn payload(title: &str, body: &str, html: &str) -> NewsletterPayload {
    NewsletterPayload {
        title: text(title),
        content: ContentField::Object(ContentPayload { text: text(body), html: text(html) }),
    }
}

fn newsletter_body() -> NewsletterPayload {
    payload("Newletter title", "Newletter body as plain text", "<p>Newletter body as HTML</p>")
}

fn subscriber(id: u128, email: &str, status: SubscriptionStatus) -> Subscriber {
    Subscriber { id, email: email.to_string(), name: "le guin".to_string(), status }
}

fn publish_status(r: &Result<Vec<Delivery>, PublishError>) -> u16 {
    match r {
        Ok(_) => 200,
        Err(e) => e.status_code(),
    }
}

#[test]
fn newsletters_are_not_deliverd_to_unconfirmed_subscribers() {
    let mut store = SubscriberStore::new();
    assert!(store.insert(subscriber(1, "ursula_le_guin@gmail.com", SubscriptionStatus::PendingConfirmation)));
    let r = publish(&store, newsletter_body());
    assert_eq!(publish_status(&r), 200);
    assert_eq!(r.unwrap().len(), 0);
}

#[test]
fn newsletters_are_deliverd_to_confirmed_subscribers() {
    let mut store = SubscriberStore::new();
    let mut tokens = TokenStore::new();
    assert!(store.insert(subscriber(1, "ursula_le_guin@gmail.com", SubscriptionStatus::PendingConfirmation)));
    assert!(tokens.insert("tok".to_string(), 1));
    let p = Parameters { subscription_token: "tok".to_string() };
    assert!(confirm(&mut store, &tokens, &p).is_ok());
    let r = publish(&store, newsletter_body());
    assert_eq!(publish_status(&r), 200);
    let d = r.unwrap();
    assert_eq!(d.len(), 1);
    assert_eq!(d[0].recipient, "ursula_le_guin@gmail.com");
    assert_eq!(d[0].subject, "Newletter title");
    assert_eq!(d[0].text_body, "Newletter body as plain text");
    assert_eq!(d[0].html_body, "<p>Newletter body as HTML</p>");
}

#[test]
fn newsletters_return_400_for_invalid_data() {
    let test_cases = vec![
        (
            NewsletterPayload {
                title: JsonField::Missing,
                content: ContentField::Object(ContentPayload {
                    text: text("hello"),
                    html: text("<div>world</div>"),
                }),
            },
            "missing title",
        ),
        (
            NewsletterPayload { title: text("Hello World!"), content: ContentField::Missing },
            "missing content",
        ),
        (
            NewsletterPayload {
                title: text("Hello"),
                content: ContentField::Object(ContentPayload {
                    text: text("world"),
                    html: JsonField::NonText,
                }),
            },
            "wrong content type",
        ),
    ];
    let mut store = SubscriberStore::new();
    assert!(store.insert(subscriber(1, "a@example.com", SubscriptionStatus::Confirmed)));
    for (invalid_input, error_message) in test_cases {
        let r = publish(&store, invalid_input);
        assert_eq!(
            publish_status(&r),
            400,
            "The API did not fail with 400 Bad Request when the payload was {}.",
            error_message
        );
    }
}

#[test]
fn no_confirmed_subscribers_means_no_attempts() {
    let store = SubscriberStore::new();
    assert_eq!(publish(&store, newsletter_body()).unwrap().len(), 0);
    let mut store = SubscriberStore::new();
    assert!(store.insert(subscriber(1, "a@example.com", SubscriptionStatus::PendingConfirmation)));
    assert!(store.insert(subscriber(2, "b@example.com", SubscriptionStatus::PendingConfirmation)));
    assert_eq!(publish(&store, newsletter_body()).unwrap().len(), 0);
}

#[test]
fn one_confirmed_one_pending_gives_one_attempt() {
    let mut store = SubscriberStore::new();
    assert!(store.insert(subscriber(1, "pending@example.com", SubscriptionStatus::PendingConfirmation)));
    assert!(store.insert(subscriber(2, "confirmed@example.com", SubscriptionStatus::Confirmed)));
    let d = publish(&store, newsletter_body()).unwrap();
    assert_eq!(d.len(), 1);
    assert_eq!(d[0].recipient, "confirmed@example.com");
}

#[test]
fn every_confirmed_subscriber_gets_exactly_one_attempt_in_order() {
    let mut store = SubscriberStore::new();
    assert!(store.insert(subscriber(1, "a@example.com", SubscriptionStatus::Confirmed)));
    assert!(store.insert(subscriber(2, "b@example.com", SubscriptionStatus::PendingConfirmation)));
    assert!(store.insert(subscriber(3, "c@example.com", SubscriptionStatus::Confirmed)));
    assert!(store.insert(subscriber(4, "a@example.com", SubscriptionStatus::Confirmed)));
    let d = publish(&store, newsletter_body()).unwrap();
    let to: Vec<&str> = d.iter().map(|x| x.recipient.as_str()).collect();
    assert_eq!(to, vec!["a@example.com", "c@example.com", "a@example.com"]);
}

#[test]
fn missing_title_is_invalid_payload() {
    let p = NewsletterPayload {
        title: JsonField::Missing,
        content: ContentField::Object(ContentPayload { text: text("t"), html: text("h") }),
    };
    match validate_newsletter(p) {
        Err(e) => {
            assert!(matches!(e, PublishError::InvalidPayload(PayloadField::Title)));
            assert_eq!(e.status_code(), 400);
        }
        Ok(_) => panic!("expected an invalid payload"),
    }
}

#[test]
fn empty_or_non_text_title_is_invalid_payload() {
    let p = payload("", "t", "h");
    assert!(matches!(validate_newsletter(p), Err(PublishError::InvalidPayload(PayloadField::Title))));
    let p = NewsletterPayload {
        title: JsonField::NonText,
        content: ContentField::Object(ContentPayload { text: text("t"), html: text("h") }),
    };
    assert!(matches!(validate_newsletter(p), Err(PublishError::InvalidPayload(PayloadField::Title))));
}

#[test]
fn content_errors_name_their_field() {
    let p = NewsletterPayload { title: text("T"), content: ContentField::NonObject };
    assert!(matches!(validate_newsletter(p), Err(PublishError::InvalidPayload(PayloadField::Content))));
    let p = NewsletterPayload {
        title: text("T"),
        content: ContentField::Object(ContentPayload { text: JsonField::Missing, html: text("h") }),
    };
    assert!(matches!(validate_newsletter(p), Err(PublishError::InvalidPayload(PayloadField::ContentText))));
    let p = NewsletterPayload {
        title: text("T"),
        content: ContentField::Object(ContentPayload { text: text("t"), html: JsonField::NonText }),
    };
    assert!(matches!(validate_newsletter(p), Err(PublishError::InvalidPayload(PayloadField::ContentHtml))));
}

#[test]
fn valid_payload_becomes_newsletter() {
    let n = validate_newsletter(payload("N", "t", "<p>t</p>")).unwrap();
    assert_eq!(n.title, "N");
    assert_eq!(n.text, "t");
    assert_eq!(n.html, "<p>t</p>");
}

#[test]
fn plan_keeps_duplicates_and_order() {
    let n = Newsletter { title: "T".to_string(), text: "x".to_string(), html: "<b>x</b>".to_string() };
    let to = vec!["b@x.org".to_string(), "a@x.org".to_string(), "b@x.org".to_string()];
    let d = plan_deliveries(&to, &n);
    assert_eq!(d.len(), 3);
    assert_eq!(d[0].recipient, "b@x.org");
    assert_eq!(d[1].recipient, "a@x.org");
    assert_eq!(d[2].recipient, "b@x.org");
    assert_eq!(d[2].html_body, "<b>x</b>");
}

#[test]
fn partial_failure_is_reported_not_raised() {
    let n = Newsletter { title: "T".to_string(), text: "x".to_string(), html: "y".to_string() };
    let to = vec!["a@x.org".to_string(), "b@x.org".to_string(), "c@x.org".to_string(), "d@x.org".to_string()];
    let d = plan_deliveries(&to, &n);
    let o = finish_publish(&d, &vec![true, false, true]).unwrap();
    assert_eq!(o.delivered, 2);
    assert_eq!(o.failed, vec!["b@x.org".to_string()]);
    assert_eq!(o.abandoned, 1);
}

#[test]
fn all_attempts_failing_is_an_error() {
    let n = Newsletter { title: "T".to_string(), text: "x".to_string(), html: "y".to_string() };
    let to = vec!["a@x.org".to_string(), "b@x.org".to_string()];
    let d = plan_deliveries(&to, &n);
    let e = finish_publish(&d, &vec![false, false]).unwrap_err();
    assert!(matches!(e, PublishError::AllDeliveriesFailed(2)));
    assert_eq!(e.status_code(), 500);
}

#[test]
fn no_attempts_is_not_a_failure() {
    let n = Newsletter { title: "T".to_string(), text: "x".to_string(), html: "y".to_string() };
    let d = plan_deliveries(&Vec::new(), &n);
    let o = finish_publish(&d, &Vec::new()).unwrap();
    assert_eq!(o.delivered, 0);
    assert!(o.failed.is_empty());
    assert_eq!(o.abandoned, 0);
}

#[test]
fn confirm_then_publish_reaches_the_confirmed_address() {
    let mut store = SubscriberStore::new();
    let mut tokens = TokenStore::new();
    assert!(store.insert(subscriber(7, "ursula_le_guin@gmail.com", SubscriptionStatus::PendingConfirmation)));
    assert!(tokens.insert("T1".to_string(), 7));
    let r = confirm(&mut store, &tokens, &Parameters { subscription_token: "T1".to_string() });
    assert_eq!(confirmation_status(&r), 200);
    assert_eq!(store.status_of(7), Some(SubscriptionStatus::Confirmed));
    let d = publish(&store, payload("N", "t", "<p>t</p>")).unwrap();
    assert_eq!(d.len(), 1);
    assert_eq!(d[0].recipient, "ursula_le_guin@gmail.com");
    assert_eq!(d[0].subject, "N");
    assert_eq!(d[0].text_body, "t");
    assert_eq!(d[0].html_body, "<p>t</p>");
}
