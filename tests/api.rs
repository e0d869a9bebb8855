use maildog::api::{
    default_use_tls, format_timestamp, page_window, EmailListItem, EmailResponse, HealthResponse,
    ImapConfigResponse, UpdateImapConfigRequest,
};
use maildog::models::{Email, ImapConfig, Timestamp};
use maildog::vault::decrypt_password;

fn ts(unix_seconds: i64) -> Timestamp {
    Timestamp { unix_seconds, nanosecond: 0, offset_seconds: 0 }
}

fn config() -> ImapConfig {
    ImapConfig {
        id: 4,
        name: "work".to_string(),
        mail_host: "imap.example.com".to_string(),
        mail_port: 993,
        username: "me".to_string(),
        password_encrypted: vec![1, 2, 3],
        use_tls: false,
        created_at: ts(1704103200),
        updated_at: ts(1704103260),
    }
}

#[test]
fn tls_defaults_to_on() {
    assert!(default_use_tls());
}

#[test]
fn health_reports_healthy() {
    let h = HealthResponse::healthy("0.1.0");
    assert_eq!(h.status, "healthy");
    assert_eq!(h.version, "0.1.0");
}

#[test]
fn timestamps_are_rfc3339() {
    assert_eq!(format_timestamp(&ts(1704103200)), "2024-01-01T10:00:00Z");
    let t = Timestamp { unix_seconds: 1704103200, nanosecond: 0, offset_seconds: 7200 };
    assert_eq!(format_timestamp(&t), "2024-01-01T12:00:00+02:00");
    assert_eq!(format_timestamp(&ts(i64::MAX)), "");
}

#[test]
fn pages_start_at_one() {
    assert_eq!(page_window(None), Some((1, 0)));
    assert_eq!(page_window(Some(0)), Some((1, 0)));
    assert_eq!(page_window(Some(-5)), Some((1, 0)));
    assert_eq!(page_window(Some(3)), Some((3, 100)));
    assert_eq!(page_window(Some(i64::MAX)), None);
}

#[test]
fn list_item_shows_sent_date() {
    let item = EmailListItem::from_row(9, Some("s".to_string()), None, None, Some(ts(0)), Some(2));
    assert_eq!(item.created_at, "1970-01-01T00:00:00Z");
    assert_eq!(item.imap_uid, 9);
    let item = EmailListItem::from_row(9, None, None, None, None, None);
    assert_eq!(item.created_at, "");
}

#[test]
fn config_response_hides_password() {
    let r = ImapConfigResponse::from_config(config());
    assert_eq!(r.id, 4);
    assert_eq!(r.name, "work");
    assert_eq!(r.mail_port, 993);
    assert!(!r.use_tls);
    assert_eq!(r.created_at, "2024-01-01T10:00:00Z");
    assert_eq!(r.updated_at, "2024-01-01T10:01:00Z");
}

#[test]
fn email_response_formats_fields() {
    let email = Email {
        id: 1,
        uid: 77,
        message_id: None,
        subject: Some("hi".to_string()),
        from_address: None,
        to_address: None,
        cc_address: None,
        bcc_address: None,
        reply_to: None,
        date_sent: Some(ts(0)),
        date_received: ts(60),
        body_text: Some("body".to_string()),
        body_html: None,
        raw_message: Some(b"raw text".to_vec()),
        flags: None,
        size_bytes: Some(8),
        has_attachments: Some(false),
        folder_name: Some("INBOX".to_string()),
        created_at: ts(120),
        updated_at: ts(180),
        imap_config_id: Some(3),
    };
    let r = EmailResponse::from_email(email);
    assert_eq!(r.imap_uid, 77);
    assert_eq!(r.date_sent, Some("1970-01-01T00:00:00Z".to_string()));
    assert_eq!(r.date_maildog_fetched, "1970-01-01T00:01:00Z");
    assert_eq!(r.raw_message, Some("raw text".to_string()));
    assert_eq!(r.created_at, "1970-01-01T00:02:00Z");
    assert_eq!(r.imap_config_id, Some(3));
}

#[test]
fn update_replaces_only_given_fields() {
    let req = UpdateImapConfigRequest {
        name: None,
        mail_host: Some("mail.example.org".to_string()),
        mail_port: Some(143),
        username: None,
        password: None,
        use_tls: Some(true),
    };
    let c = req.apply_to(config(), "pp");
    assert_eq!(c.name, "work");
    assert_eq!(c.mail_host, "mail.example.org");
    assert_eq!(c.mail_port, 143);
    assert_eq!(c.username, "me");
    assert_eq!(c.password_encrypted, vec![1, 2, 3]);
    assert!(c.use_tls);
}

#[test]
fn update_encrypts_new_password() {
    let req = UpdateImapConfigRequest {
        name: Some("home".to_string()),
        mail_host: None,
        mail_port: None,
        username: None,
        password: Some("new-pw".to_string()),
        use_tls: None,
    };
    let c = req.apply_to(config(), "pp");
    assert_eq!(c.name, "home");
    assert_eq!(decrypt_password(&c.password_encrypted, "pp"), Ok("new-pw".to_string()));
}
