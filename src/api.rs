//! The records that the HTTP interface exchanges, and the rules that build
//! them from stored rows and requests.

use vstd::prelude::*;
use vstd::utf8::*;
use crate::models::{opt_text, Email, ImapConfig, Timestamp};
use crate::text::{owned, utf8_decode};
use crate::translate::text_of;
use crate::vault::{encrypt_password, is_encryption_of, MAX_PLAINTEXT_LEN};

verus! {

/// Number of messages on one page of the message list.
pub const PAGE_SIZE: i64 = 50;

/// The groups under which the endpoints are documented.
#[derive(Clone, Copy, Debug, PartialEq, Eq, Structural)]
pub enum ApiTags {
    /// System and health endpoints.
    System,
    /// Email and mailbox operations.
    Email,
    /// Authentication endpoints.
    Auth,
}

/// The health endpoint.
#[derive(Clone, Copy, Debug, PartialEq, Eq, Structural)]
pub struct HealthApi;

/// The message endpoints.
#[derive(Clone, Copy, Debug, PartialEq, Eq, Structural)]
pub struct EmailApi;

/// The mailbox configuration endpoints.
#[derive(Clone, Copy, Debug, PartialEq, Eq, Structural)]
pub struct ImapConfigApi;

/// The answer of the health endpoint.
#[derive(Clone, Debug)]
pub struct HealthResponse {
    pub status: String,
    pub version: String,
}

impl HealthResponse {
    /// A healthy status for the given service version.
    pub fn healthy(version: &str) -> (r: HealthResponse)
        ensures
            r.status@ == "healthy"@,
            r.version@ == version@,
    {
        HealthResponse { status: owned("healthy"), version: owned(version) }
    }
}

/// The value of `use_tls` when a creation request leaves it out.
pub fn default_use_tls() -> (r: bool)
    ensures
        r,
{
    true
}

/// What the date formatter makes of a timestamp: RFC 3339 text where that
/// format can express it, the formatter's display form otherwise, or `None`
/// where the values denote no date-time.
pub uninterp spec fn timestamp_text_of(t: Timestamp) -> Option<Seq<char>>;

/// Relies on `time::OffsetDateTime` (`from_unix_timestamp`,
/// `replace_nanosecond`, `checked_to_offset`, `format(&Rfc3339)` and its
/// `Display`): the text of the date-time that the values denote.
#[verifier::external_body]
fn timestamp_text(t: &Timestamp) -> (r: Option<String>)
    ensures
        opt_text(r) == timestamp_text_of(*t),
{
    let offset = time::UtcOffset::from_whole_seconds(t.offset_seconds).ok()?;
    let utc = time::OffsetDateTime::from_unix_timestamp(t.unix_seconds).ok()?;
    let d = utc.replace_nanosecond(t.nanosecond).ok()?.checked_to_offset(offset)?;
    Some(d.format(&time::format_description::well_known::Rfc3339).unwrap_or_else(|_| d.to_string()))
}

/// The text shown for a timestamp: its formatted form, or empty text where
/// the values denote no date-time.
pub open spec fn stamp_text(t: Timestamp) -> Seq<char> {
    match timestamp_text_of(t) {
        Some(s) => s,
        None => seq![],
    }
}

/// Formats a timestamp for display.
pub fn format_timestamp(t: &Timestamp) -> (r: String)
    ensures
        r@ == stamp_text(*t),
{
    match timestamp_text(t) {
        Some(s) => s,
        None => String::new(),
    }
}

/// Formats an optional timestamp for display.
pub fn format_opt_timestamp(t: &Option<Timestamp>) -> (r: Option<String>)
    ensures
        opt_text(r) == match *t {
            Some(d) => Some(stamp_text(d)),
            None => None,
        },
{
    match t {
        Some(d) => Some(format_timestamp(d)),
        None => None,
    }
}

/// A message in the message list.
#[derive(Clone, Debug)]
pub struct EmailListItem {
    pub imap_uid: i64,
    pub subject: Option<String>,
    pub from_address: Option<String>,
    pub to_address: Option<String>,
    pub created_at: String,
    pub imap_config_id: Option<i64>,
}

impl EmailListItem {
    /// A list entry from the columns of a stored row; `created_at` shows the
    /// sent date, or nothing when there is none.
    pub fn from_row(
        imap_uid: i64,
        subject: Option<String>,
        from_address: Option<String>,
        to_address: Option<String>,
        date_sent: Option<Timestamp>,
        imap_config_id: Option<i64>,
    ) -> (r: EmailListItem)
        ensures
            r.imap_uid == imap_uid,
            r.subject == subject,
            r.from_address == from_address,
            r.to_address == to_address,
            r.created_at@ == match date_sent {
                Some(d) => stamp_text(d),
                None => seq![],
            },
            r.imap_config_id == imap_config_id,
    {
        let created_at = match &date_sent {
            Some(d) => format_timestamp(d),
            None => String::new(),
        };
        EmailListItem { imap_uid, subject, from_address, to_address, created_at, imap_config_id }
    }
}

/// A stored message as the interface shows it, with dates as text.
#[derive(Clone, Debug)]
pub struct EmailResponse {
    pub imap_uid: i64,
    pub message_id: Option<String>,
    pub subject: Option<String>,
    pub from_address: Option<String>,
    pub to_address: Option<String>,
    pub cc_address: Option<String>,
    pub bcc_address: Option<String>,
    pub reply_to: Option<String>,
    pub date_sent: Option<String>,
    pub date_maildog_fetched: String,
    pub body_text: Option<String>,
    pub body_html: Option<String>,
    pub raw_message: Option<String>,
    pub flags: Option<String>,
    pub size_bytes: Option<i64>,
    pub has_attachments: Option<bool>,
    pub folder_name: Option<String>,
    pub created_at: String,
    pub updated_at: String,
    pub imap_config_id: Option<i64>,
}

impl EmailResponse {
    /// Shows a stored message: dates as text, the raw message as text where
    /// it is UTF-8, every other field as stored.
    pub fn from_email(email: Email) -> (r: EmailResponse)
        ensures
            r.imap_uid == email.uid,
            r.message_id == email.message_id,
            r.subject == email.subject,
            r.from_address == email.from_address,
            r.to_address == email.to_address,
            r.cc_address == email.cc_address,
            r.bcc_address == email.bcc_address,
            r.reply_to == email.reply_to,
            opt_text(r.date_sent) == match email.date_sent {
                Some(d) => Some(stamp_text(d)),
                None => None,
            },
            r.date_maildog_fetched@ == stamp_text(email.date_received),
            r.body_text == email.body_text,
            r.body_html == email.body_html,
            opt_text(r.raw_message) == text_of(email.raw_message),
            r.flags == email.flags,
            r.size_bytes == email.size_bytes,
            r.has_attachments == email.has_attachments,
            r.folder_name == email.folder_name,
            r.created_at@ == stamp_text(email.created_at),
            r.updated_at@ == stamp_text(email.updated_at),
            r.imap_config_id == email.imap_config_id,
    {
        let date_sent = format_opt_timestamp(&email.date_sent);
        let date_maildog_fetched = format_timestamp(&email.date_received);
        let created_at = format_timestamp(&email.created_at);
        let updated_at = format_timestamp(&email.updated_at);
        let raw_message = match &email.raw_message {
            Some(b) => utf8_decode(b.as_slice()),
            None => None,
        };
        EmailResponse {
            imap_uid: email.uid,
            message_id: email.message_id,
            subject: email.subject,
            from_address: email.from_address,
            to_address: email.to_address,
            cc_address: email.cc_address,
            bcc_address: email.bcc_address,
            reply_to: email.reply_to,
            date_sent,
            date_maildog_fetched,
            body_text: email.body_text,
            body_html: email.body_html,
            raw_message,
            flags: email.flags,
            size_bytes: email.size_bytes,
            has_attachments: email.has_attachments,
            folder_name: email.folder_name,
            created_at,
            updated_at,
            imap_config_id: email.imap_config_id,
        }
    }
}

/// One page of the message list.
#[derive(Clone, Debug)]
pub struct EmailsListResponse {
    pub emails: Vec<EmailListItem>,
    pub total: i64,
    pub page: i64,
    pub page_size: i64,
}

/// One message in full.
#[derive(Clone, Debug)]
pub struct EmailDetailResponse {
    pub email: EmailResponse,
}

/// The page asked for (the first when none or one below 1 is asked for) and
/// the number of rows before it, or `None` where that number overflows.
pub open spec fn page_window_of(page: Option<i64>) -> Option<(i64, i64)> {
    let p: i64 = match page {
        Some(p) => if p < 1 {
            1
        } else {
            p
        },
        None => 1,
    };
    if (p - 1) * PAGE_SIZE <= i64::MAX {
        Some((p, ((p - 1) * PAGE_SIZE) as i64))
    } else {
        None
    }
}

/// Works out the page number and the row offset of a list request.
pub fn page_window(page: Option<i64>) -> (r: Option<(i64, i64)>)
    ensures
        r == page_window_of(page),
{
    let p: i64 = match page {
        Some(p) => if p < 1 {
            1
        } else {
            p
        },
        None => 1,
    };
    if p - 1 <= i64::MAX / PAGE_SIZE {
        Some((p, (p - 1) * PAGE_SIZE))
    } else {
        None
    }
}

/// A mailbox configuration as the interface shows it, without its password.
#[derive(Clone, Debug)]
pub struct ImapConfigResponse {
    pub id: i64,
    pub name: String,
    pub mail_host: String,
    pub mail_port: i64,
    pub username: String,
    pub use_tls: bool,
    pub created_at: String,
    pub updated_at: String,
}

impl ImapConfigResponse {
    /// Shows a configuration: every field but the password, dates as text.
    pub fn from_config(config: ImapConfig) -> (r: ImapConfigResponse)
        ensures
            r.id == config.id,
            r.name == config.name,
            r.mail_host == config.mail_host,
            r.mail_port == config.mail_port,
            r.username == config.username,
            r.use_tls == config.use_tls,
            r.created_at@ == stamp_text(config.created_at),
            r.updated_at@ == stamp_text(config.updated_at),
    {
        let created_at = format_timestamp(&config.created_at);
        let updated_at = format_timestamp(&config.updated_at);
        ImapConfigResponse {
            id: config.id,
            name: config.name,
            mail_host: config.mail_host,
            mail_port: config.mail_port,
            username: config.username,
            use_tls: config.use_tls,
            created_at,
            updated_at,
        }
    }
}

/// A request to add a mailbox.
#[derive(Clone, Debug)]
pub struct CreateImapConfigRequest {
    pub name: String,
    pub mail_host: String,
    pub mail_port: u16,
    pub username: String,
    pub password: String,
    pub use_tls: bool,
}

/// A request to change a mailbox; absent fields stay as they are.
#[derive(Clone, Debug)]
pub struct UpdateImapConfigRequest {
    pub name: Option<String>,
    pub mail_host: Option<String>,
    pub mail_port: Option<u16>,
    pub username: Option<String>,
    pub password: Option<String>,
    pub use_tls: Option<bool>,
}

impl UpdateImapConfigRequest {
    /// The configuration after this change: each given field replaces the
    /// stored one, and a given password is encrypted anew under the
    /// passphrase.
    pub fn apply_to(self, existing: ImapConfig, passphrase: &str) -> (r: ImapConfig)
        requires
            self.password matches Some(p) ==> encode_utf8(p@).len() <= MAX_PLAINTEXT_LEN,
        ensures
            r.id == existing.id,
            r.name == match self.name {
                Some(n) => n,
                None => existing.name,
            },
            r.mail_host == match self.mail_host {
                Some(h) => h,
                None => existing.mail_host,
            },
            r.mail_port == match self.mail_port {
                Some(p) => p as i64,
                None => existing.mail_port,
            },
            r.username == match self.username {
                Some(u) => u,
                None => existing.username,
            },
            r.use_tls == match self.use_tls {
                Some(t) => t,
                None => existing.use_tls,
            },
            match self.password {
                Some(p) => is_encryption_of(r.password_encrypted@, p@, passphrase@),
                None => r.password_encrypted == existing.password_encrypted,
            },
            r.created_at == existing.created_at,
            r.updated_at == existing.updated_at,
    {
        let password_encrypted = match &self.password {
            Some(p) => encrypt_password(p.as_str(), passphrase),
            None => existing.password_encrypted,
        };
        ImapConfig {
            id: existing.id,
            name: match self.name {
                Some(n) => n,
                None => existing.name,
            },
            mail_host: match self.mail_host {
                Some(h) => h,
                None => existing.mail_host,
            },
            mail_port: match self.mail_port {
                Some(p) => p as i64,
                None => existing.mail_port,
            },
            username: match self.username {
                Some(u) => u,
                None => existing.username,
            },
            password_encrypted,
            use_tls: match self.use_tls {
                Some(t) => t,
                None => existing.use_tls,
            },
            created_at: existing.created_at,
            updated_at: existing.updated_at,
        }
    }
}

/// One mailbox configuration.
#[derive(Clone, Debug)]
pub struct ImapConfigDetailResponse {
    pub config: ImapConfigResponse,
}

/// Every mailbox configuration.
#[derive(Clone, Debug)]
pub struct ImapConfigListResponse {
    pub configs: Vec<ImapConfigResponse>,
}

/// An error message.
#[derive(Clone, Debug)]
pub struct ErrorResponse {
    pub error: String,
}

/// A success message.
#[derive(Clone, Debug)]
pub struct SuccessResponse {
    pub message: String,
}

} // verus!
