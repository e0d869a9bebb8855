use maildog::text::remove_all_exec;
use maildog::translate::{
    body_parts, choose_subject, clean_date, decode_subject, extract_bodies, first_address, format_address,
    header_text, parse_sent_date, MimeParts, prepare_email_data, serialize_flags, subject_of, translate_message, Address,
    Envelope, FetchedMessage, TranslateError,
};

fn addr(mailbox: Option<&[u8]>, host: Option<&[u8]>) -> Address {
    Address { name: Some(b"Someone".to_vec()), mailbox: mailbox.map(|m| m.to_vec()), host: host.map(|h| h.to_vec()) }
}

fn sample_message(uid: Option<u32>, body: Option<&[u8]>) -> FetchedMessage {
    FetchedMessage {
        uid,
        envelope: Some(Envelope {
            subject: Some(b"Weekly report".to_vec()),
            from: Some(vec![addr(Some(b"alice"), Some(b"example.com")), addr(Some(b"bob"), Some(b"example.org"))]),
            to: Some(vec![addr(Some(b"carol"), Some(b"example.net"))]),
            message_id: Some(b"<m1@example.com>".to_vec()),
            date: Some(b"Mon, 1 Jan 2024 10:00:00 +0000 (UTC)".to_vec()),
        }),
        flags: vec!["Seen".to_string(), "Flagged".to_string()],
        body: body.map(|b| b.to_vec()),
    }
}

const SIMPLE: &[u8] = b"From: alice@example.com\r\nSubject: Weekly report\r\nContent-Type: text/plain\r\n\r\nHello world";

#[test]
fn address_needs_mailbox_and_host() {
    assert_eq!(format_address(&addr(Some(b"alice"), Some(b"example.com"))), Some("alice@example.com".to_string()));
    assert_eq!(format_address(&addr(Some(b"alice"), None)), None);
    assert_eq!(format_address(&addr(None, Some(b"example.com"))), None);
    assert_eq!(format_address(&addr(Some(&[0xff]), Some(b"example.com"))), None);
}

#[test]
fn only_first_address_is_taken() {
    let list = Some(vec![addr(Some(b"a"), Some(b"x.org")), addr(Some(b"b"), Some(b"y.org"))]);
    assert_eq!(first_address(&list), Some("a@x.org".to_string()));
    assert_eq!(first_address(&Some(vec![])), None);
    assert_eq!(first_address(&None), None);
}

#[test]
fn header_text_requires_utf8() {
    assert_eq!(header_text(&Some(b"<id@host>".to_vec())), Some("<id@host>".to_string()));
    assert_eq!(header_text(&Some(vec![0xc3, 0x28])), None);
    assert_eq!(header_text(&None), None);
}

#[test]
fn subject_encoded_word_is_decoded() {
    assert_eq!(decode_subject(b"=?UTF-8?B?SGVsbG8gV29ybGQ=?="), Some("Hello World".to_string()));
    assert_eq!(subject_of(&Some(b"=?UTF-8?Q?caf=C3=A9?=".to_vec())), Some("caf\u{e9}".to_string()));
}

#[test]
fn plain_subject_is_kept() {
    assert_eq!(subject_of(&Some(b"Weekly report".to_vec())), Some("Weekly report".to_string()));
    assert_eq!(subject_of(&None), None);
}

#[test]
fn subject_falls_back_to_utf8_bytes() {
    assert_eq!(choose_subject(None, b"plain text"), Some("plain text".to_string()));
    assert_eq!(choose_subject(Some("decoded".to_string()), b"raw"), Some("decoded".to_string()));
    assert_eq!(choose_subject(None, &[0xff, 0xfe]), None);
}

#[test]
fn zone_name_suffixes_are_removed() {
    assert_eq!(
        clean_date(b"Mon, 1 Jan 2024 10:00:00 +0000 (UTC)"),
        Some("Mon, 1 Jan 2024 10:00:00 +0000".to_string())
    );
    assert_eq!(
        clean_date(b"Tue, 2 Jan 2024 08:30:00 +0000 (GMT)"),
        Some("Tue, 2 Jan 2024 08:30:00 +0000".to_string())
    );
    assert_eq!(clean_date(b"Tue, 2 Jan 2024 08:30:00 -0500 (EST)"), Some("Tue, 2 Jan 2024 08:30:00 -0500 (EST)".to_string()));
    assert_eq!(clean_date(&[0xff]), None);
}

#[test]
fn pattern_removal_is_left_to_right() {
    assert_eq!(remove_all_exec(b"aaa", b"aa"), b"a".to_vec());
    assert_eq!(remove_all_exec(b"x (UTC) (UTC)y", b" (UTC)"), b"xy".to_vec());
    assert_eq!(remove_all_exec(b"abc", b""), b"abc".to_vec());
    assert_eq!(remove_all_exec(b"", b"ab"), Vec::<u8>::new());
}

#[test]
fn sent_date_is_parsed() {
    let d = parse_sent_date(&Some(b"Mon, 1 Jan 2024 10:00:00 +0000 (UTC)".to_vec())).unwrap();
    assert_eq!(d.unix_seconds, 1704103200);
    assert_eq!(d.offset_seconds, 0);
    let d = parse_sent_date(&Some(b"Mon, 1 Jan 2024 12:00:00 +0200".to_vec())).unwrap();
    assert_eq!(d.unix_seconds, 1704103200);
    assert_eq!(d.offset_seconds, 7200);
}

#[test]
fn unparseable_date_is_absent() {
    assert_eq!(parse_sent_date(&Some(b"yesterday".to_vec())), None);
    assert_eq!(parse_sent_date(&None), None);
}

#[test]
fn flags_become_json_array() {
    assert_eq!(
        serialize_flags(&vec!["Seen".to_string(), "Custom(\"x\")".to_string()]),
        Some("[\"Seen\",\"Custom(\\\"x\\\")\"]".to_string())
    );
    assert_eq!(serialize_flags(&vec![]), None);
}

#[test]
fn mime_bodies_are_extracted() {
    let (text, html) = extract_bodies(SIMPLE);
    assert_eq!(text, Some("Hello world".to_string()));
    assert_eq!(html.map(|h| h.contains("Hello world")), Some(true));
}

#[test]
fn unparseable_body_falls_back_to_lossy_text() {
    let raw: &[u8] = b"not \xff a message";
    assert_eq!(body_parts(None, raw), (Some("not \u{fffd} a message".to_string()), None));
    let parsed = Some(MimeParts {
        subject: None,
        body_text: Some("t".to_string()),
        body_html: Some("<p>t</p>".to_string()),
    });
    assert_eq!(body_parts(parsed, raw), (Some("t".to_string()), Some("<p>t</p>".to_string())));
}

#[test]
fn message_is_normalised() {
    let m = sample_message(Some(42), Some(SIMPLE));
    let e = translate_message(&m, 42, SIMPLE, 7);
    assert_eq!(e.uid, 42);
    assert_eq!(e.imap_config_id, 7);
    assert_eq!(e.message_id, Some("<m1@example.com>".to_string()));
    assert_eq!(e.subject, Some("Weekly report".to_string()));
    assert_eq!(e.from_address, Some("alice@example.com".to_string()));
    assert_eq!(e.to_address, Some("carol@example.net".to_string()));
    assert_eq!(e.cc_address, None);
    assert_eq!(e.bcc_address, None);
    assert_eq!(e.reply_to, None);
    assert_eq!(e.date_sent.map(|d| d.unix_seconds), Some(1704103200));
    assert_eq!(e.body_text, Some("Hello world".to_string()));
    assert_eq!(e.raw_message, SIMPLE.to_vec());
    assert_eq!(e.flags, Some("[\"Seen\",\"Flagged\"]".to_string()));
    assert_eq!(e.size_bytes, Some(SIMPLE.len() as i64));
    assert!(!e.has_attachments);
    assert_eq!(e.folder_name, "INBOX");
}

#[test]
fn message_without_envelope_keeps_body() {
    let m = FetchedMessage { uid: Some(1), envelope: None, flags: vec![], body: Some(SIMPLE.to_vec()) };
    let e = translate_message(&m, 1, SIMPLE, 1);
    assert_eq!(e.subject, None);
    assert_eq!(e.from_address, None);
    assert_eq!(e.date_sent, None);
    assert_eq!(e.flags, None);
    assert_eq!(e.body_text, Some("Hello world".to_string()));
}

#[test]
fn preparing_requires_uid() {
    let m = sample_message(None, Some(SIMPLE));
    assert_eq!(prepare_email_data(&m, false, 1).unwrap_err(), TranslateError::MissingUid);
}

#[test]
fn preparing_requires_body() {
    let m = sample_message(Some(5), None);
    assert_eq!(prepare_email_data(&m, false, 1).unwrap_err(), TranslateError::MissingBody);
}

#[test]
fn preparing_skips_stored_uid() {
    let m = sample_message(Some(5), None);
    assert!(prepare_email_data(&m, true, 1).unwrap().is_none());
    let m = sample_message(Some(5), Some(SIMPLE));
    let e = prepare_email_data(&m, false, 9).unwrap().unwrap();
    assert_eq!(e.uid, 5);
    assert_eq!(e.imap_config_id, 9);
}
