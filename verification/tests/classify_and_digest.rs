use mailparser::classify::classify;
use mailparser::classify::structured_sender_address;
use mailparser::classify::RoutingDecision;
use mailparser::digest::build_digest;
use mailparser::digest::DigestError;
use mailparser::envelope::MailEnvelope;

fn envelope(from: &str, text_body: Option<&str>) -> MailEnvelope {
    MailEnvelope {
        from: from.to_string(),
        to: "someone@example.com".to_string(),
        subject: "A subject".to_string(),
        date: "2022-10-10T10:00:00Z".to_string(),
        html_body: None,
        text_body: text_body.map(|t| t.to_string()),
    }
}

#[test]
fn structured_sender_is_classified_structured() {
    let env = envelope("noreply@bandcamp.com", None);
    assert_eq!(classify(&env), RoutingDecision::StructuredRelease);
    assert_eq!(structured_sender_address(), "noreply@bandcamp.com");
}

#[test]
fn every_other_sender_is_classified_generic() {
    for other in [
        "friend@example.com",
        "noreply@bandcamp.org",
        "Noreply@bandcamp.com",
        "noreply@mail.bandcamp.com",
        "",
    ] {
        let env = envelope(other, None);
        assert_eq!(classify(&env), RoutingDecision::GenericForward);
    }
}

#[test]
fn digest_normalizes_line_breaks() {
    let env = envelope("friend@example.com", Some("line1\r\nline2\nline3"));
    let digest = build_digest(&env).unwrap();
    assert_eq!(digest.body, "line1 line2 line3");
    assert_eq!(digest.subject, "A subject");
    assert_eq!(digest.from, "friend@example.com");
}

#[test]
fn digest_without_text_body_fails() {
    let env = envelope("friend@example.com", None);
    assert!(matches!(build_digest(&env), Err(DigestError::MissingTextBody)));
}
