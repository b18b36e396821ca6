use oxidize_mail::{sample_email, MessageFields, ParsedEmail};

fn record_with_body(body: Option<&str>) -> ParsedEmail {
    ParsedEmail {
        account_id: None,
        message_id: None,
        subject: Some("Subject".to_string()),
        sender: Some("sender@example.com".to_string()),
        recipients: None,
        body_text: body.map(|b| b.to_string()),
        body_html: None,
        received_date: None,
        is_read: false,
        is_starred: false,
        folder: Some("Inbox".to_string()),
    }
}

#[test]
fn preview_of_exactly_fifty_characters_is_unchanged() {
    let body = "12345678901234567890123456789012345678901234567890";
    assert_eq!(body.chars().count(), 50);
    assert_eq!(record_with_body(Some(body)).preview(), body);
}

#[test]
fn preview_of_fifty_one_characters_is_cut() {
    let body = "12345678901234567890123456789012345678901234567890X";
    assert_eq!(
        record_with_body(Some(body)).preview(),
        "12345678901234567890123456789012345678901234567890..."
    );
}

#[test]
fn preview_of_long_body_is_first_fifty_and_ellipsis() {
    let body = "The quick brown fox jumps over the lazy dog, again and again and again.";
    assert_eq!(
        record_with_body(Some(body)).preview(),
        "The quick brown fox jumps over the lazy dog, again..."
    );
}

#[test]
fn preview_of_short_body_is_unchanged() {
    assert_eq!(record_with_body(Some("Hello, world!")).preview(), "Hello, world!");
    assert_eq!(record_with_body(Some("")).preview(), "");
}

#[test]
fn preview_without_body_is_the_placeholder() {
    assert_eq!(record_with_body(None).preview(), "(No body text)");
}

#[test]
fn preview_counts_characters_not_bytes() {
    let fifty: String = "é".repeat(50);
    assert_eq!(fifty.len(), 100);
    assert_eq!(record_with_body(Some(&fifty)).preview(), fifty);

    let sixty: String = "ü".repeat(60);
    let expected = format!("{}...", "ü".repeat(50));
    assert_eq!(record_with_body(Some(&sixty)).preview(), expected);

    let mixed = format!("{}📥 and more text after the boundary", "a".repeat(49));
    let expected = format!("{}📥...", "a".repeat(49));
    assert_eq!(record_with_body(Some(&mixed)).preview(), expected);
}

#[test]
fn time_string_without_date_is_the_placeholder() {
    assert_eq!(record_with_body(None).time_string(), "(No timestamp)");
}

#[test]
fn time_string_is_the_stored_text() {
    let mut email = record_with_body(None);
    email.received_date = Some("3:45 PM".to_string());
    assert_eq!(email.time_string(), "3:45 PM");
    email.received_date = Some(String::new());
    assert_eq!(email.time_string(), "");
}

#[test]
fn body_text_ignores_the_length_limit() {
    let email = record_with_body(Some("Hello, world!"));
    assert_eq!(email.body_text(1000).as_deref(), Some("Hello, world!"));
    assert_eq!(email.body_text(0).as_deref(), Some("Hello, world!"));
    assert_eq!(email.body_text(5), email.body_text);
    assert_eq!(record_with_body(None).body_text(0), None);
}

#[test]
fn record_from_fields_takes_each_field_over() {
    let fields = MessageFields {
        subject: Some("Meeting Reminder".to_string()),
        sender: Some("sender@example.com".to_string()),
        recipient: Some("recipient@example.com".to_string()),
        body_text: Some("Don't forget about the meeting tomorrow.".to_string()),
        body_html: Some("<p>Don't forget.</p>".to_string()),
        date: Some("2003-07-01T10:52:37+02:00".to_string()),
        message_id: Some("id@example.com".to_string()),
    };
    let email = ParsedEmail::from_fields(
        fields,
        true,
        "Work".to_string(),
        true,
        Some("primary".to_string()),
    );
    assert_eq!(
        email,
        ParsedEmail {
            account_id: Some("primary".to_string()),
            message_id: Some("id@example.com".to_string()),
            subject: Some("Meeting Reminder".to_string()),
            sender: Some("sender@example.com".to_string()),
            recipients: Some("recipient@example.com".to_string()),
            body_text: Some("Don't forget about the meeting tomorrow.".to_string()),
            body_html: Some("<p>Don't forget.</p>".to_string()),
            received_date: Some("2003-07-01T10:52:37+02:00".to_string()),
            is_read: true,
            is_starred: true,
            folder: Some("Work".to_string()),
        }
    );
}

#[test]
fn record_from_no_fields_is_empty_but_legal() {
    let fields = MessageFields {
        subject: None,
        sender: None,
        recipient: None,
        body_text: None,
        body_html: None,
        date: None,
        message_id: None,
    };
    let email = ParsedEmail::from_fields(fields, false, "Inbox".to_string(), false, None);
    assert_eq!(email.subject, None);
    assert_eq!(email.sender, None);
    assert_eq!(email.body_text, None);
    assert_eq!(email.body_html, None);
    assert_eq!(email.folder.as_deref(), Some("Inbox"));
    assert_eq!(email.preview(), "(No body text)");
    assert_eq!(email.time_string(), "(No timestamp)");
}

#[test]
fn sample_email_is_made_of_the_drawn_values() {
    let email = sample_email(
        "A subject".to_string(),
        "someone@example.com".to_string(),
        "A body of some words.".to_string(),
        7,
        5,
        true,
        "📥 Inbox".to_string(),
    );
    assert_eq!(
        email,
        ParsedEmail {
            account_id: None,
            message_id: None,
            subject: Some("A subject".to_string()),
            sender: Some("Inbox - someone@example.com".to_string()),
            recipients: None,
            body_text: Some("A body of some words.".to_string()),
            body_html: None,
            received_date: Some("7:05 AM".to_string()),
            is_read: false,
            is_starred: false,
            folder: Some("📥 Inbox".to_string()),
        }
    );
    assert_eq!(email.time_string(), "7:05 AM");
}

#[test]
fn sample_email_times_are_written_on_the_twelve_hour_clock() {
    let time = |hour: u8, minute: u8, morning: bool| {
        sample_email(String::new(), String::new(), String::new(), hour, minute, morning, String::new())
            .received_date
    };
    assert_eq!(time(11, 58, false).as_deref(), Some("11:58 PM"));
    assert_eq!(time(1, 0, true).as_deref(), Some("1:00 AM"));
    assert_eq!(time(10, 10, false).as_deref(), Some("10:10 PM"));
    assert_eq!(time(9, 9, true).as_deref(), Some("9:09 AM"));
}

#[test]
fn sample_email_times_are_decimal_for_every_value() {
    for hour in 0..=255u8 {
        for minute in 0..=255u8 {
            let email = sample_email(
                String::new(),
                String::new(),
                String::new(),
                hour,
                minute,
                minute % 2 == 0,
                String::new(),
            );
            let half = if minute % 2 == 0 { "AM" } else { "PM" };
            assert_eq!(email.received_date, Some(format!("{}:{:02} {}", hour, minute, half)));
        }
    }
}
