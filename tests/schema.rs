use portfolio_api::data::chris;
use portfolio_api::email::{contact_email_body, EmailConfig};
use portfolio_api::gate::{check_origin, classify_request, RequestAction};
use portfolio_api::types::{ContactMeInput, MutationRoot, QueryRoot};

#[test]
fn ping_returns_pong() {
    assert_eq!(QueryRoot.ping(), "pong");
}

#[test]
fn query_chris_has_guest_id() {
    let c = QueryRoot.chris();
    assert_eq!(c.id, "guest");
    assert_eq!(c.skills.languages.len(), 17);
    assert_eq!(c.skills.languages[0], "JavaScript");
}

#[test]
fn profile_email_is_fixed() {
    let c = chris();
    assert_eq!(c.social.email, "chris@driscolsoftware.com");
    assert!(!c.social.email.is_empty());
    assert_eq!(c.work.len(), 11);
    assert_eq!(c.experience.len(), 7);
}

#[test]
fn contact_me_succeeds_when_delivery_does() {
    let r = MutationRoot.contact_me_outcome(Ok(()));
    assert!(r.unwrap().success);
}

#[test]
fn contact_me_fails_when_delivery_does() {
    let r = MutationRoot.contact_me_outcome(Err("ses send failed: down".to_string()));
    assert_eq!(r.unwrap_err(), "ses send failed: down");
}

#[test]
fn gate_without_secret_lets_all_through() {
    assert!(check_origin(&None, &None).is_ok());
    assert!(check_origin(&None, &Some("anything".to_string())).is_ok());
}

#[test]
fn gate_rejects_missing_or_wrong_secret() {
    let expected = Some("s3".to_string());
    for provided in [None, Some("other".to_string()), Some(String::new())] {
        let e = check_origin(&expected, &provided).unwrap_err();
        assert_eq!(e.code, "FORBIDDEN");
        assert_eq!(e.message, "Forbidden");
    }
    assert!(check_origin(&expected, &Some("s3".to_string())).is_ok());
}

#[test]
fn email_config_names_missing_value() {
    assert_eq!(EmailConfig::from_values(None, Some("t".to_string())).unwrap_err(), "SES_FROM is required");
    assert_eq!(EmailConfig::from_values(Some("f".to_string()), None).unwrap_err(), "SES_TO is required");
    let c = EmailConfig::from_values(Some("f".to_string()), Some("t".to_string())).unwrap();
    assert_eq!((c.from.as_str(), c.to.as_str()), ("f", "t"));
}

#[test]
fn contact_body_lists_sender() {
    let input = ContactMeInput {
        from: "a@b".to_string(),
        name: "Ann".to_string(),
        subject: "Hi".to_string(),
        body: "Hello".to_string(),
    };
    assert_eq!(contact_email_body(&input), "Hello\n\nFrom: Ann\nEmail: a@b");
}

#[test]
fn request_classification() {
    let secret = Some("k".to_string());
    let good = Some("k".to_string());
    assert!(matches!(classify_request(&secret, &None, "POST"), RequestAction::Forbidden(_)));
    assert!(matches!(classify_request(&secret, &good, "OPTIONS"), RequestAction::NoContent));
    assert!(matches!(classify_request(&secret, &good, "POST"), RequestAction::Execute));
    assert!(matches!(classify_request(&None, &None, "GET"), RequestAction::MethodNotAllowed));
    assert!(matches!(classify_request(&None, &None, "POST"), RequestAction::Execute));
}
