//! The message translator: turns one fetch result of the mail protocol
//! (envelope, flags, raw body) into a normalised `NewEmail`.

use vstd::prelude::*;
use vstd::utf8::*;
use crate::models::{opt_text, NewEmail, NewEmailView, Timestamp};
use crate::text::{join3, owned, remove_all, remove_all_exec, utf8_decode, utf8_lossy, utf8_lossy_of};

verus! {

/// One address of an envelope, as raw header bytes.
#[derive(Clone, Debug)]
pub struct Address {
    pub name: Option<Vec<u8>>,
    pub mailbox: Option<Vec<u8>>,
    pub host: Option<Vec<u8>>,
}

/// The envelope of a fetched message, as raw header bytes.
#[derive(Clone, Debug)]
pub struct Envelope {
    pub subject: Option<Vec<u8>>,
    pub from: Option<Vec<Address>>,
    pub to: Option<Vec<Address>>,
    pub message_id: Option<Vec<u8>>,
    pub date: Option<Vec<u8>>,
}

/// One fetch result: UID, envelope, flags (in their textual form) and the
/// raw RFC 822 body.
#[derive(Clone, Debug)]
pub struct FetchedMessage {
    pub uid: Option<u32>,
    pub envelope: Option<Envelope>,
    pub flags: Vec<String>,
    pub body: Option<Vec<u8>>,
}

/// Why a fetch result could not be turned into a record.
#[derive(Clone, Copy, Debug, PartialEq, Eq, Structural)]
pub enum TranslateError {
    /// The server sent no UID.
    MissingUid,
    /// The server sent no body.
    MissingBody,
}

/// The folder that the engine ingests.
pub open spec fn inbox() -> Seq<char> {
    "INBOX"@
}

/// What the MIME parser reads in a message: its decoded Subject header, its
/// first plain-text and its first HTML body part; `None` where it cannot
/// parse the message at all.
pub uninterp spec fn mime_parts_of(message: Seq<u8>) -> Option<(Option<Seq<char>>, Option<Seq<char>>, Option<Seq<char>>)>;

/// What the RFC 2822 date parser makes of a text.
pub uninterp spec fn rfc2822_of(text: Seq<char>) -> Option<Timestamp>;

/// The JSON array of strings that serialises the given texts.
pub uninterp spec fn json_string_array_of(items: Seq<Seq<char>>) -> Seq<char>;

/// What the MIME parser found in a message.
#[derive(Clone, Debug)]
pub struct MimeParts {
    pub subject: Option<String>,
    pub body_text: Option<String>,
    pub body_html: Option<String>,
}

/// The view of a MIME parse result.
pub open spec fn parts_view(p: Option<MimeParts>) -> Option<(Option<Seq<char>>, Option<Seq<char>>, Option<Seq<char>>)> {
    match p {
        Some(m) => Some((opt_text(m.subject), opt_text(m.body_text), opt_text(m.body_html))),
        None => None,
    }
}

/// Relies on `mail_parser::MessageParser::parse`, read through
/// `Message::subject`, `Message::body_text(0)` and `Message::body_html(0)`:
/// the decoded subject and the first text and HTML parts of the message.
#[verifier::external_body]
fn parse_mime(message: &[u8]) -> (r: Option<MimeParts>)
    ensures
        parts_view(r) == mime_parts_of(message@),
{
    match mail_parser::MessageParser::default().parse(message) {
        Some(parsed) => Some(MimeParts {
            subject: parsed.subject().map(str::to_string),
            body_text: parsed.body_text(0).map(|t| t.into_owned()),
            body_html: parsed.body_html(0).map(|h| h.into_owned()),
        }),
        None => None,
    }
}

/// Relies on `time::OffsetDateTime::parse` with the `Rfc2822` format: the
/// parsed instant, its nanoseconds and its UTC offset.
#[verifier::external_body]
fn parse_rfc2822(text: &str) -> (r: Option<Timestamp>)
    ensures
        r == rfc2822_of(text@),
{
    match time::OffsetDateTime::parse(text, &time::format_description::well_known::Rfc2822) {
        Ok(d) => Some(Timestamp {
            unix_seconds: d.unix_timestamp(),
            nanosecond: d.nanosecond(),
            offset_seconds: d.offset().whole_seconds(),
        }),
        Err(_) => None,
    }
}

/// The views of a sequence of texts.
pub open spec fn texts_view(items: Seq<String>) -> Seq<Seq<char>> {
    items.map_values(|s: String| s@)
}

/// Relies on `serde_json::to_string` on a `Vec<String>`: the JSON array of
/// the strings (empty text should serialisation fail).
#[verifier::external_body]
fn json_string_array(items: &Vec<String>) -> (r: String)
    ensures
        r@ == json_string_array_of(texts_view(items@)),
{
    serde_json::to_string(items).unwrap_or_default()
}

/// Bytes as text, where they are valid UTF-8.
pub open spec fn bytes_text(b: Seq<u8>) -> Option<Seq<char>> {
    if valid_utf8(b) {
        Some(decode_utf8(b))
    } else {
        None
    }
}

/// Optional header bytes as text, where they are valid UTF-8.
pub open spec fn text_of(raw: Option<Vec<u8>>) -> Option<Seq<char>> {
    match raw {
        Some(b) => bytes_text(b@),
        None => None,
    }
}

/// Decodes optional header bytes as UTF-8 text.
pub fn header_text(raw: &Option<Vec<u8>>) -> (r: Option<String>)
    ensures
        opt_text(r) == text_of(*raw),
{
    match raw {
        Some(b) => utf8_decode(b.as_slice()),
        None => None,
    }
}

/// An address as `local@host`, where both parts are present and text.
pub open spec fn address_text(a: Address) -> Option<Seq<char>> {
    match (text_of(a.mailbox), text_of(a.host)) {
        (Some(m), Some(h)) => Some(m + seq!['@'] + h),
        _ => None,
    }
}

/// Formats one envelope address as `local@host`.
pub fn format_address(a: &Address) -> (r: Option<String>)
    ensures
        opt_text(r) == address_text(*a),
{
    let mailbox = header_text(&a.mailbox);
    let host = header_text(&a.host);
    match (mailbox, host) {
        (Some(m), Some(h)) => {
            let r = join3(m.as_str(), "@", h.as_str());
            proof {
                reveal_strlit("@");
            }
            assert(r@ =~= m@ + seq!['@'] + h@);
            Some(r)
        },
        _ => None,
    }
}

/// The first address of an optional address list, formatted.
pub open spec fn first_address_text(list: Option<Vec<Address>>) -> Option<Seq<char>> {
    match list {
        Some(v) => if v@.len() > 0 {
            address_text(v@[0])
        } else {
            None
        },
        None => None,
    }
}

/// Formats the first address of an optional address list.
pub fn first_address(list: &Option<Vec<Address>>) -> (r: Option<String>)
    ensures
        opt_text(r) == first_address_text(*list),
{
    match list {
        Some(v) => if v.len() > 0 {
            format_address(&v[0])
        } else {
            None
        },
        None => None,
    }
}

/// The one-header message that lets the MIME parser decode a raw subject
/// (encoded words included).
pub open spec fn subject_header(raw: Seq<u8>) -> Seq<u8> {
    encode_utf8("Subject: "@ + utf8_lossy_of(raw) + "\r\n\r\n"@)
}

/// What the MIME parser decodes as the subject of a one-header message.
pub open spec fn mime_subject_of(message: Seq<u8>) -> Option<Seq<char>> {
    match mime_parts_of(message) {
        Some((subject, _, _)) => subject,
        None => None,
    }
}

/// Decodes a raw subject through the MIME parser.
pub fn decode_subject(raw: &[u8]) -> (r: Option<String>)
    ensures
        opt_text(r) == mime_subject_of(subject_header(raw@)),
{
    let lossy = utf8_lossy(raw);
    let header = join3("Subject: ", lossy.as_str(), "\r\n\r\n");
    match parse_mime(header.as_str().as_bytes()) {
        Some(parts) => parts.subject,
        None => None,
    }
}

/// The subject: the MIME decoding if it yields one, else the raw bytes as
/// UTF-8 text, else none.
pub open spec fn subject_text(raw: Option<Vec<u8>>) -> Option<Seq<char>> {
    match raw {
        Some(b) => match mime_subject_of(subject_header(b@)) {
            Some(s) => Some(s),
            None => bytes_text(b@),
        },
        None => None,
    }
}

/// Chooses the subject from what the MIME decoding gave and the raw bytes.
pub fn choose_subject(decoded: Option<String>, raw: &[u8]) -> (r: Option<String>)
    ensures
        opt_text(r) == match opt_text(decoded) {
            Some(s) => Some(s),
            None => bytes_text(raw@),
        },
{
    match decoded {
        Some(s) => Some(s),
        None => utf8_decode(raw),
    }
}

/// Works out the subject of a raw Subject header.
pub fn subject_of(raw: &Option<Vec<u8>>) -> (r: Option<String>)
    ensures
        opt_text(r) == subject_text(*raw),
{
    match raw {
        Some(b) => {
            let decoded = decode_subject(b.as_slice());
            choose_subject(decoded, b.as_slice())
        },
        None => None,
    }
}

/// The date text handed to the RFC 2822 parser: the raw bytes, if they are
/// UTF-8, with every " (UTC)" and then every " (GMT)" taken out.
pub open spec fn cleaned_date_text(raw: Seq<u8>) -> Option<Seq<char>> {
    if valid_utf8(raw) {
        let cleaned = remove_all(remove_all(raw, encode_utf8(" (UTC)"@)), encode_utf8(" (GMT)"@));
        if valid_utf8(cleaned) {
            Some(decode_utf8(cleaned))
        } else {
            None
        }
    } else {
        None
    }
}

/// Strips the parenthesised zone names that strict RFC 2822 parsing refuses.
pub fn clean_date(raw: &[u8]) -> (r: Option<String>)
    ensures
        opt_text(r) == cleaned_date_text(raw@),
{
    if utf8_decode(raw).is_none() {
        return None;
    }
    let utc = remove_all_exec(raw, " (UTC)".as_bytes());
    let gmt = remove_all_exec(utc.as_slice(), " (GMT)".as_bytes());
    utf8_decode(gmt.as_slice())
}

/// The sent date: the cleaned date text parsed as RFC 2822; absent where the
/// header is missing, not text, or does not parse.
pub open spec fn sent_date(raw: Option<Vec<u8>>) -> Option<Timestamp> {
    match raw {
        Some(b) => match cleaned_date_text(b@) {
            Some(t) => rfc2822_of(t),
            None => None,
        },
        None => None,
    }
}

/// Parses the Date header of an envelope.
pub fn parse_sent_date(raw: &Option<Vec<u8>>) -> (r: Option<Timestamp>)
    ensures
        r == sent_date(*raw),
{
    match raw {
        Some(b) => match clean_date(b.as_slice()) {
            Some(t) => parse_rfc2822(t.as_str()),
            None => None,
        },
        None => None,
    }
}

/// The flags field: the flags as a JSON array, or absent when there are none.
pub open spec fn flags_text(flags: Seq<String>) -> Option<Seq<char>> {
    if flags.len() > 0 {
        Some(json_string_array_of(texts_view(flags)))
    } else {
        None
    }
}

/// Serialises the flags of a message.
pub fn serialize_flags(flags: &Vec<String>) -> (r: Option<String>)
    ensures
        opt_text(r) == flags_text(flags@),
{
    if flags.len() > 0 {
        Some(json_string_array(flags))
    } else {
        None
    }
}

/// The text and HTML bodies: those the MIME parser found, or, where it
/// cannot parse the message, the whole payload as lossy UTF-8 text and no
/// HTML.
pub open spec fn body_texts(
    parsed: Option<(Option<Seq<char>>, Option<Seq<char>>, Option<Seq<char>>)>,
    raw: Seq<u8>,
) -> (Option<Seq<char>>, Option<Seq<char>>) {
    match parsed {
        Some((_, text, html)) => (text, html),
        None => (Some(utf8_lossy_of(raw)), None),
    }
}

/// Chooses the bodies from what the MIME parser gave and the raw payload.
pub fn body_parts(parsed: Option<MimeParts>, raw: &[u8]) -> (r: (Option<String>, Option<String>))
    ensures
        (opt_text(r.0), opt_text(r.1)) == body_texts(parts_view(parsed), raw@),
{
    match parsed {
        Some(p) => (p.body_text, p.body_html),
        None => (Some(utf8_lossy(raw)), None),
    }
}

/// Extracts the bodies of a raw message.
pub fn extract_bodies(raw: &[u8]) -> (r: (Option<String>, Option<String>))
    ensures
        (opt_text(r.0), opt_text(r.1)) == body_texts(mime_parts_of(raw@), raw@),
{
    let parsed = parse_mime(raw);
    body_parts(parsed, raw)
}

/// The record made of a fetch result with the given UID and body.
pub open spec fn translated(m: FetchedMessage, uid: u32, body: Seq<u8>, mailbox_id: i64) -> NewEmailView {
    let bodies = body_texts(mime_parts_of(body), body);
    NewEmailView {
        uid: uid as i64,
        message_id: match m.envelope {
            Some(e) => text_of(e.message_id),
            None => None,
        },
        subject: match m.envelope {
            Some(e) => subject_text(e.subject),
            None => None,
        },
        from_address: match m.envelope {
            Some(e) => first_address_text(e.from),
            None => None,
        },
        to_address: match m.envelope {
            Some(e) => first_address_text(e.to),
            None => None,
        },
        cc_address: None,
        bcc_address: None,
        reply_to: None,
        date_sent: match m.envelope {
            Some(e) => sent_date(e.date),
            None => None,
        },
        body_text: bodies.0,
        body_html: bodies.1,
        raw_message: body,
        flags: flags_text(m.flags@),
        size_bytes: Some(body.len() as i64),
        has_attachments: false,
        folder_name: inbox(),
        imap_config_id: mailbox_id,
    }
}

/// Translates a fetch result with the given UID and body into a record of
/// the given mailbox.
pub fn translate_message(m: &FetchedMessage, uid: u32, body: &[u8], mailbox_id: i64) -> (r: NewEmail)
    ensures
        r@ == translated(*m, uid, body@, mailbox_id),
{
    let (message_id, subject, from_address, to_address, date_sent) = match &m.envelope {
        Some(e) => (
            header_text(&e.message_id),
            subject_of(&e.subject),
            first_address(&e.from),
            first_address(&e.to),
            parse_sent_date(&e.date),
        ),
        None => (None, None, None, None, None),
    };
    let flags = serialize_flags(&m.flags);
    let (body_text, body_html) = extract_bodies(body);
    let mut raw_message: Vec<u8> = Vec::new();
    let mut i: usize = 0;
    while i < body.len()
        invariant
            i <= body@.len(),
            raw_message@ == body@.subrange(0, i as int),
        decreases body@.len() - i,
    {
        raw_message.push(body[i]);
        assert(raw_message@ =~= body@.subrange(0, i + 1));
        i = i + 1;
    }
    assert(body@.subrange(0, body@.len() as int) =~= body@);
    NewEmail {
        uid: uid as i64,
        message_id,
        subject,
        from_address,
        to_address,
        cc_address: None,
        bcc_address: None,
        reply_to: None,
        date_sent,
        body_text,
        body_html,
        raw_message,
        flags,
        size_bytes: Some(body.len() as i64),
        has_attachments: false,
        folder_name: owned("INBOX"),
        imap_config_id: mailbox_id,
    }
}

/// What preparing a fetch result yields, given whether its UID is already
/// stored: an error for a missing UID, nothing for a stored one, an error for
/// a missing body, else the translated record.
pub open spec fn prepared(m: FetchedMessage, already_stored: bool, mailbox_id: i64) -> Result<Option<NewEmailView>, TranslateError> {
    match m.uid {
        None => Err(TranslateError::MissingUid),
        Some(uid) => if already_stored {
            Ok(None)
        } else {
            match m.body {
                None => Err(TranslateError::MissingBody),
                Some(b) => Ok(Some(translated(m, uid, b@, mailbox_id))),
            }
        },
    }
}

/// The view of a preparation result.
pub open spec fn prepared_view(r: Result<Option<NewEmail>, TranslateError>) -> Result<Option<NewEmailView>, TranslateError> {
    match r {
        Ok(Some(e)) => Ok(Some(e@)),
        Ok(None) => Ok(None),
        Err(err) => Err(err),
    }
}

/// Prepares one fetch result for storage in the given mailbox;
/// `already_stored` tells whether a row with its UID exists.
pub fn prepare_email_data(m: &FetchedMessage, already_stored: bool, mailbox_id: i64) -> (r: Result<Option<NewEmail>, TranslateError>)
    ensures
        prepared_view(r) == prepared(*m, already_stored, mailbox_id),
{
    match m.uid {
        None => Err(TranslateError::MissingUid),
        Some(uid) => if already_stored {
            Ok(None)
        } else {
            match &m.body {
                None => Err(TranslateError::MissingBody),
                Some(b) => Ok(Some(translate_message(m, uid, b.as_slice(), mailbox_id))),
            }
        },
    }
}

} // verus!
