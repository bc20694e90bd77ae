use gmail_hotkey_sender::preview::{console_lines, preview_body};
use gmail_hotkey_sender::request::{comma_list, split_commas, SendRequest, ValidationError};

#[test]
fn preview_cuts_long_body_at_hundred_chars() {
    let body = "x".repeat(150);
    let shown = preview_body(&body);
    assert_eq!(shown, format!("{}...", "x".repeat(100)));
}

#[test]
fn preview_keeps_body_of_exactly_hundred_chars() {
    let body = "y".repeat(100);
    assert_eq!(preview_body(&body), body);
}

#[test]
fn preview_keeps_short_and_empty_bodies() {
    assert_eq!(preview_body("Hello"), "Hello");
    assert_eq!(preview_body(""), "");
}

#[test]
fn preview_counts_characters_not_bytes() {
    let body = "é".repeat(101);
    let shown = preview_body(&body);
    assert_eq!(shown, format!("{}...", "é".repeat(100)));
    let short = "é".repeat(60);
    assert_eq!(preview_body(&short), short);
}

#[test]
fn comma_list_splits_in_order() {
    assert_eq!(
        comma_list(Some("a@x.com,b@x.com")),
        Some(vec!["a@x.com".to_string(), "b@x.com".to_string()])
    );
}

#[test]
fn comma_list_absent_or_empty_gives_no_list() {
    assert_eq!(comma_list(None), None);
    assert_eq!(comma_list(Some("")), None);
}

#[test]
fn comma_list_keeps_pieces_as_written() {
    assert_eq!(
        comma_list(Some("a, b,,c,")),
        Some(vec![
            "a".to_string(),
            " b".to_string(),
            "".to_string(),
            "c".to_string(),
            "".to_string()
        ])
    );
    assert_eq!(comma_list(Some("solo@x.com")), Some(vec!["solo@x.com".to_string()]));
}

#[test]
fn split_commas_of_lone_comma() {
    assert_eq!(split_commas(","), vec!["".to_string(), "".to_string()]);
    assert_eq!(split_commas(""), vec!["".to_string()]);
}

#[test]
fn build_refuses_empty_recipient() {
    let r = SendRequest::build("", Some("Hi"), Some("Hello"), None, None, None, false);
    assert!(matches!(r, Err(ValidationError::MissingRecipient)));
}

#[test]
fn build_fills_defaults_and_splits_lists() {
    let r = SendRequest::build(
        "a@b.com",
        None,
        None,
        Some("c@x.com,d@x.com"),
        None,
        Some("<p>Hi</p>"),
        true,
    )
    .unwrap();
    assert_eq!(r.to, "a@b.com");
    assert_eq!(r.subject, "");
    assert_eq!(r.body, "");
    assert_eq!(r.cc, Some(vec!["c@x.com".to_string(), "d@x.com".to_string()]));
    assert_eq!(r.bcc, None);
    assert_eq!(r.html_body, Some("<p>Hi</p>".to_string()));
    assert!(r.is_draft);
}

#[test]
fn console_lines_for_send_show_preview() {
    let body = "z".repeat(120);
    let r = SendRequest::build("a@b.com", Some("Hi"), Some(&body), None, None, None, false).unwrap();
    let lines = console_lines(&r);
    assert_eq!(
        lines,
        vec![
            "Would send email to: a@b.com".to_string(),
            "Subject: Hi".to_string(),
            format!("Body: {}...", "z".repeat(100)),
        ]
    );
}
