//! The records that the engine reads and writes: mailbox configurations,
//! normalised messages and ingestion runs.

use vstd::prelude::*;
use crate::vault::{decrypt_password, encrypt_password, decrypted, is_encryption_of, text_result, VaultError, MAX_PLAINTEXT_LEN};

verus! {

/// A point in time with the UTC offset it was written in.
#[derive(Clone, Copy, Debug, PartialEq, Eq, Structural)]
pub struct Timestamp {
    /// Seconds since 1970-01-01T00:00:00Z.
    pub unix_seconds: i64,
    /// Nanoseconds within the second.
    pub nanosecond: u32,
    /// Offset from UTC, in seconds.
    pub offset_seconds: i32,
}

/// The view of an optional piece of text.
pub open spec fn opt_text(o: Option<String>) -> Option<Seq<char>> {
    match o {
        Some(s) => Some(s@),
        None => None,
    }
}

/// A normalised message, ready to be stored once under (mailbox, UID).
#[derive(Clone, Debug)]
pub struct NewEmail {
    pub uid: i64,
    pub message_id: Option<String>,
    pub subject: Option<String>,
    pub from_address: Option<String>,
    pub to_address: Option<String>,
    pub cc_address: Option<String>,
    pub bcc_address: Option<String>,
    pub reply_to: Option<String>,
    pub date_sent: Option<Timestamp>,
    pub body_text: Option<String>,
    pub body_html: Option<String>,
    pub raw_message: Vec<u8>,
    pub flags: Option<String>,
    pub size_bytes: Option<i64>,
    pub has_attachments: bool,
    pub folder_name: String,
    pub imap_config_id: i64,
}

/// The contents of a `NewEmail`.
pub struct NewEmailView {
    pub uid: i64,
    pub message_id: Option<Seq<char>>,
    pub subject: Option<Seq<char>>,
    pub from_address: Option<Seq<char>>,
    pub to_address: Option<Seq<char>>,
    pub cc_address: Option<Seq<char>>,
    pub bcc_address: Option<Seq<char>>,
    pub reply_to: Option<Seq<char>>,
    pub date_sent: Option<Timestamp>,
    pub body_text: Option<Seq<char>>,
    pub body_html: Option<Seq<char>>,
    pub raw_message: Seq<u8>,
    pub flags: Option<Seq<char>>,
    pub size_bytes: Option<i64>,
    pub has_attachments: bool,
    pub folder_name: Seq<char>,
    pub imap_config_id: i64,
}

impl View for NewEmail {
    type V = NewEmailView;

    open spec fn view(&self) -> NewEmailView {
        NewEmailView {
            uid: self.uid,
            message_id: opt_text(self.message_id),
            subject: opt_text(self.subject),
            from_address: opt_text(self.from_address),
            to_address: opt_text(self.to_address),
            cc_address: opt_text(self.cc_address),
            bcc_address: opt_text(self.bcc_address),
            reply_to: opt_text(self.reply_to),
            date_sent: self.date_sent,
            body_text: opt_text(self.body_text),
            body_html: opt_text(self.body_html),
            raw_message: self.raw_message@,
            flags: opt_text(self.flags),
            size_bytes: self.size_bytes,
            has_attachments: self.has_attachments,
            folder_name: self.folder_name@,
            imap_config_id: self.imap_config_id,
        }
    }
}

/// A stored message row.
#[derive(Clone, Debug)]
pub struct Email {
    pub id: i64,
    pub uid: i64,
    pub message_id: Option<String>,
    pub subject: Option<String>,
    pub from_address: Option<String>,
    pub to_address: Option<String>,
    pub cc_address: Option<String>,
    pub bcc_address: Option<String>,
    pub reply_to: Option<String>,
    pub date_sent: Option<Timestamp>,
    pub date_received: Timestamp,
    pub body_text: Option<String>,
    pub body_html: Option<String>,
    pub raw_message: Option<Vec<u8>>,
    pub flags: Option<String>,
    pub size_bytes: Option<i64>,
    pub has_attachments: Option<bool>,
    pub folder_name: Option<String>,
    pub created_at: Timestamp,
    pub updated_at: Timestamp,
    pub imap_config_id: Option<i64>,
}

/// The terminal status of an ingestion run.
#[derive(Clone, Copy, Debug, PartialEq, Eq, Structural)]
pub enum RunStatus {
    Completed,
    Failed,
}

impl RunStatus {
    /// The status as it is stored: `completed` or `failed`.
    pub fn as_text(&self) -> (r: String)
        ensures
            r@ == match self {
                RunStatus::Completed => "completed"@,
                RunStatus::Failed => "failed"@,
            },
    {
        match self {
            RunStatus::Completed => crate::text::owned("completed"),
            RunStatus::Failed => crate::text::owned("failed"),
        }
    }
}

/// How to reach one mailbox. The password is kept encrypted.
#[derive(Clone, Debug)]
pub struct ImapConfig {
    pub id: i64,
    pub name: String,
    pub mail_host: String,
    pub mail_port: i64,
    pub username: String,
    pub password_encrypted: Vec<u8>,
    pub use_tls: bool,
    pub created_at: Timestamp,
    pub updated_at: Timestamp,
}

impl ImapConfig {
    /// Decrypts this mailbox's password with the service passphrase.
    pub fn decrypt_password(&self, passphrase: &str) -> (r: Result<String, VaultError>)
        ensures
            decrypted(self.password_encrypted@, passphrase@, text_result(r)),
    {
        decrypt_password(self.password_encrypted.as_slice(), passphrase)
    }

    /// Encrypts a mailbox password with the service passphrase, for storage.
    pub fn encrypt_password(password: &str, passphrase: &str) -> (r: Vec<u8>)
        requires
            vstd::utf8::encode_utf8(password@).len() <= MAX_PLAINTEXT_LEN,
        ensures
            is_encryption_of(r@, password@, passphrase@),
    {
        encrypt_password(password, passphrase)
    }
}

} // verus!
