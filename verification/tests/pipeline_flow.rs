use mailparser::envelope::parse_envelope;
use mailparser::envelope::EnvelopeError;
use mailparser::envelope::MailEnvelope;
use mailparser::pipeline::plan_for_envelope;
use mailparser::pipeline::process_message;
use mailparser::pipeline::MessagePlan;
use mailparser::pipeline::PipelineError;
use mailparser::release::ExtractError;

fn structured_envelope(html: &str) -> MailEnvelope {
    MailEnvelope {
        from: "noreply@bandcamp.com".to_string(),
        to: "buyer@example.com".to_string(),
        subject: "New release".to_string(),
        date: "2022-10-10T10:00:00Z".to_string(),
        html_body: Some(html.to_string()),
        text_body: None,
    }
}

const RELEASE_MAIL: &[u8] = b"From: Bandcamp <noreply@bandcamp.com>\r\n\
To: buyer@example.com\r\n\
Subject: New release\r\n\
Date: Mon, 10 Oct 2022 10:00:00 +0000\r\n\
Content-Type: text/html; charset=utf-8\r\n\
\r\n\
<div><p>Label just released \n</p><p>Some Title</p>\
<a href=\"https://x/y?utm=1\"><img src=\"https://x/cover.jpg\"></a></div>\r\n";

const FORWARD_MAIL: &[u8] = b"From: Friend <friend@example.com>\r\n\
To: me@example.com\r\n\
Subject: hello\r\n\
Date: Mon, 10 Oct 2022 10:00:00 +0000\r\n\
Content-Type: text/plain; charset=utf-8\r\n\
\r\n\
line1\r\nline2\r\n";

#[test]
fn parse_envelope_reads_the_headers() {
    let env = parse_envelope(RELEASE_MAIL).unwrap();
    assert_eq!(env.from, "noreply@bandcamp.com");
    assert_eq!(env.to, "buyer@example.com");
    assert_eq!(env.subject, "New release");
    assert_eq!(env.date, "2022-10-10T10:00:00Z");
    assert!(env.html_body.is_some());
}

#[test]
fn unparseable_bytes_are_rejected() {
    assert!(matches!(parse_envelope(b""), Err(EnvelopeError::Unparseable)));
}

#[test]
fn message_without_sender_is_rejected() {
    let raw = b"To: a@b.c\r\nSubject: s\r\nDate: Mon, 10 Oct 2022 10:00:00 +0000\r\n\r\nx";
    assert_eq!(parse_envelope(raw).unwrap_err(), EnvelopeError::MissingFrom);
}

#[test]
fn message_without_date_is_rejected() {
    let raw = b"From: a@b.c\r\nTo: d@e.f\r\nSubject: s\r\n\r\nx";
    assert_eq!(parse_envelope(raw).unwrap_err(), EnvelopeError::MissingDate);
}

#[test]
fn structured_message_plans_a_persistence() {
    let plan = process_message(RELEASE_MAIL).unwrap();
    match plan {
        MessagePlan::PersistRelease(record) => {
            assert_eq!(record.label, "Label");
            assert_eq!(record.title, "Some Title");
            assert_eq!(record.artist, None);
            assert_eq!(record.link, "https://x/y");
            assert_eq!(record.cover_link, "https://x/cover.jpg");
            assert_eq!(record.recipient, "buyer@example.com");
            assert_eq!(record.date, "2022-10-10T10:00:00Z");
        },
        other => panic!("expected a persistence plan, got {:?}", other),
    }
}

#[test]
fn forwarded_message_plans_a_publish_never_a_persistence() {
    let plan = process_message(FORWARD_MAIL).unwrap();
    match plan {
        MessagePlan::PublishForward(digest) => {
            assert_eq!(digest.subject, "hello");
            assert_eq!(digest.from, "friend@example.com");
            assert_eq!(digest.body, "line1 line2 ");
        },
        other => panic!("expected a publish plan, got {:?}", other),
    }
}

#[test]
fn mismatched_structure_is_acknowledged_as_success() {
    let env = structured_envelope("<span>no container here</span>");
    let plan = plan_for_envelope(&env).unwrap();
    assert!(matches!(
        plan,
        MessagePlan::AcknowledgeMismatch(ExtractError::MissingDiv)
    ));
}

#[test]
fn missing_released_clause_is_acknowledged_as_success() {
    let env = structured_envelope("<div><p>unrelated content</p></div>");
    let plan = plan_for_envelope(&env).unwrap();
    assert!(matches!(
        plan,
        MessagePlan::AcknowledgeMismatch(ExtractError::ReleasedClauseNotFound)
    ));
}

#[test]
fn fatal_extraction_error_fails_the_pipeline() {
    let env = structured_envelope("<div><p>X just released \n</p><p>T</p></div>");
    let r = plan_for_envelope(&env);
    assert_eq!(
        r.unwrap_err(),
        PipelineError::Extraction(ExtractError::MissingAnchor)
    );
}

#[test]
fn structured_message_without_html_body_fails() {
    let mut env = structured_envelope("x");
    env.html_body = None;
    assert_eq!(
        plan_for_envelope(&env).unwrap_err(),
        PipelineError::MissingHtmlBody
    );
}

#[test]
fn forwarded_message_without_text_body_fails() {
    let env = MailEnvelope {
        from: "friend@example.com".to_string(),
        to: "me@example.com".to_string(),
        subject: "hello".to_string(),
        date: "2022-10-10T10:00:00Z".to_string(),
        html_body: None,
        text_body: None,
    };
    assert_eq!(
        plan_for_envelope(&env).unwrap_err(),
        PipelineError::MissingTextBody
    );
}

#[test]
fn structured_message_never_plans_a_publish() {
    let env = structured_envelope(
        "<div><p>L just released \n</p><p>T</p>\
         <a href=\"https://x/y\"><img src=\"https://x/c.jpg\"></a></div>",
    );
    let plan = plan_for_envelope(&env).unwrap();
    assert!(!matches!(plan, MessagePlan::PublishForward(_)));
    assert!(matches!(plan, MessagePlan::PersistRelease(_)));
}
