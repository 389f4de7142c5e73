use mailparser::envelope::MailEnvelope;
use mailparser::release::extract_release;
use mailparser::release::ExtractError;

fn envelope() -> MailEnvelope {
    MailEnvelope {
        from: "noreply@bandcamp.com".to_string(),
        to: "buyer@example.com".to_string(),
        subject: "New release".to_string(),
        date: "2022-10-10T10:00:00Z".to_string(),
        html_body: None,
        text_body: None,
    }
}

const FIXTURE: &str = "<html><body><div>\
<p>Label just released \n</p>\
<p>Some Title</p>\
<a href=\"https://x/y?utm=1\"><img src=\"https://x/cover.jpg\"></a>\
</div></body></html>";

#[test]
fn fixture_round_trips_into_release_record() {
    let record = extract_release(FIXTURE, &envelope()).unwrap();
    assert_eq!(record.label, "Label");
    assert_eq!(record.title, "Some Title");
    assert_eq!(record.link, "https://x/y");
    assert_eq!(record.cover_link, "https://x/cover.jpg");
    assert_eq!(record.recipient, "buyer@example.com");
    assert_eq!(record.date, "2022-10-10T10:00:00Z");
    assert_eq!(record.artist, None);
}

#[test]
fn absent_by_line_yields_no_artist() {
    let record = extract_release(FIXTURE, &envelope()).unwrap();
    assert_eq!(record.artist, None);
}

#[test]
fn by_line_yields_stripped_artist() {
    let html = "<div>\
<p>The Label just released \n</p>\
<p>Great Album</p>\
<p> by Somebody, Else\n</p>\
<a href=\"https://x/y\"><img src=\"https://x/c.jpg\"></a>\
</div>";
    let record = extract_release(html, &envelope()).unwrap();
    assert_eq!(record.label, "The Label");
    assert_eq!(record.title, "Great Album");
    assert_eq!(record.artist.as_deref(), Some("SomebodyElse"));
}

#[test]
fn html_without_div_is_a_structural_mismatch() {
    let r = extract_release("<html><body><span>nothing</span></body></html>", &envelope());
    assert_eq!(r.unwrap_err(), ExtractError::MissingDiv);
}

#[test]
fn html_without_released_clause_is_a_structural_mismatch() {
    let r = extract_release("<div><p>hello there</p></div>", &envelope());
    assert_eq!(r.unwrap_err(), ExtractError::ReleasedClauseNotFound);
}

#[test]
fn released_clause_as_last_text_node_is_fatal() {
    let html = "<div><p>X just released \n</p><a href=\"https://x\"><img src=\"https://x/c\"></a></div>";
    let r = extract_release(html, &envelope());
    assert_eq!(r.unwrap_err(), ExtractError::MissingTitle);
}

#[test]
fn missing_anchor_is_fatal() {
    let html = "<div><p>X just released \n</p><p>T</p></div>";
    let r = extract_release(html, &envelope());
    assert_eq!(r.unwrap_err(), ExtractError::MissingAnchor);
}

#[test]
fn missing_cover_image_is_fatal() {
    let html = "<div><p>X just released \n</p><p>T</p><a href=\"https://x/y\">link</a></div>";
    let r = extract_release(html, &envelope());
    assert_eq!(r.unwrap_err(), ExtractError::MissingCover);
}

#[test]
fn extraction_is_deterministic_across_calls() {
    let first = extract_release(FIXTURE, &envelope()).unwrap();
    let second = extract_release(FIXTURE, &envelope()).unwrap();
    assert_eq!(first.label, second.label);
    assert_eq!(first.title, second.title);
    assert_eq!(first.artist, second.artist);
    assert_eq!(first.link, second.link);
    assert_eq!(first.cover_link, second.cover_link);
}
