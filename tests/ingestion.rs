use std::collections::BTreeMap;

use maildog::models::{ImapConfig, NewEmail, RunStatus, Timestamp};
use maildog::sync::{InsertOutcome, MailboxSync, RunCompletion, SyncAction};
use maildog::translate::{Envelope, FetchedMessage};
use maildog::vault::encrypt_password;

/// A mailbox on the server, in sequence-number order.
struct Server {
    messages: Vec<FetchedMessage>,
}

/// The rows of one mailbox, by UID.
type Rows = BTreeMap<i64, NewEmail>;

fn mailbox_config() -> ImapConfig {
    let t = Timestamp { unix_seconds: 0, nanosecond: 0, offset_seconds: 0 };
    ImapConfig {
        id: 1,
        name: "m".to_string(),
        mail_host: "h".to_string(),
        mail_port: 993,
        username: "u".to_string(),
        password_encrypted: encrypt_password("pw", "pp"),
        use_tls: true,
        created_at: t,
        updated_at: t,
    }
}

fn server(uids: impl Iterator<Item = u32>) -> Server {
    Server {
        messages: uids
            .map(|u| FetchedMessage {
                uid: Some(u),
                envelope: Some(Envelope {
                    subject: Some(format!("subject {}", u).into_bytes()),
                    from: None,
                    to: None,
                    message_id: Some(format!("<{}@example.com>", u).into_bytes()),
                    date: None,
                }),
                flags: vec!["Seen".to_string()],
                body: Some(format!("Subject: subject {}\r\n\r\ntext {}", u, u).into_bytes()),
            })
            .collect(),
    }
}

fn stored(rows: &Rows, msgs: &[FetchedMessage]) -> Vec<bool> {
    msgs.iter().map(|m| m.uid.map_or(false, |u| rows.contains_key(&(u as i64)))).collect()
}

/// Drives one run against the server and the rows; `force_incremental`
/// replaces a missing watermark by 0.
fn run(server: &Server, rows: &mut Rows, force_incremental: bool) -> (RunCompletion, usize) {
    let (mut sync, mut action) = MailboxSync::start(&mailbox_config(), "pp");
    let mut bulk_inserts = 0;
    loop {
        action = match action {
            SyncAction::Connect { .. } => sync.on_connected(),
            SyncAction::ReadWatermark => {
                let highest = rows.keys().max().copied();
                sync.on_watermark(if force_incremental { highest.or(Some(0)) } else { highest })
            }
            SyncAction::CountMessages => sync.on_total(server.messages.len() as u32),
            SyncAction::FetchSequence { start, end } => {
                let msgs = server.messages[(start - 1) as usize..end as usize].to_vec();
                let flags = stored(rows, &msgs);
                sync.on_batch_fetched(&msgs, &flags)
            }
            SyncAction::FetchUidsFrom { first_uid } => {
                let mut msgs: Vec<FetchedMessage> =
                    server.messages.iter().filter(|m| m.uid.unwrap() as i64 >= first_uid).cloned().collect();
                if msgs.is_empty() {
                    msgs.extend(server.messages.last().cloned());
                }
                let flags = stored(rows, &msgs);
                sync.on_new_messages(&msgs, &flags)
            }
            SyncAction::InsertBatch { records } => {
                bulk_inserts += 1;
                let mut n = 0;
                for r in records {
                    if !rows.contains_key(&r.uid) {
                        rows.insert(r.uid, r);
                        n += 1;
                    }
                }
                sync.on_batch_inserted(Ok(n))
            }
            SyncAction::Insert { record } => {
                if rows.contains_key(&record.uid) {
                    sync.on_inserted(InsertOutcome::AlreadyStored)
                } else {
                    rows.insert(record.uid, record);
                    sync.on_inserted(InsertOutcome::Inserted)
                }
            }
            SyncAction::Finish { completion } => return (completion, bulk_inserts),
        };
    }
}

fn snapshot(rows: &Rows) -> Vec<String> {
    rows.values().map(|r| format!("{:?}", r)).collect()
}

#[test]
fn second_run_on_unchanged_mailbox_changes_nothing() {
    let s = server(1..=75);
    let mut rows = Rows::new();
    let (first, _) = run(&s, &mut rows, false);
    assert_eq!(first.status, RunStatus::Completed);
    assert_eq!(first.counters.new, 75);
    let after_first = snapshot(&rows);
    let (second, _) = run(&s, &mut rows, false);
    assert_eq!(second.status, RunStatus::Completed);
    assert_eq!(second.counters.new, 0);
    assert_eq!(snapshot(&rows), after_first);
    assert_eq!(rows.len(), 75);
}

#[test]
fn watermark_never_decreases_across_runs() {
    let mut rows = Rows::new();
    run(&server(1..=10), &mut rows, false);
    let before = *rows.keys().max().unwrap();
    run(&server(1..=12), &mut rows, false);
    let after = *rows.keys().max().unwrap();
    assert!(after >= before);
    assert_eq!(after, 12);
    run(&server(1..=12), &mut rows, false);
    assert_eq!(*rows.keys().max().unwrap(), 12);
}

#[test]
fn batched_first_sync_equals_one_by_one_sync() {
    let s = server(1..=120);
    let mut batched = Rows::new();
    let (a, bulk) = run(&s, &mut batched, false);
    assert_eq!(bulk, 3);
    let mut each = Rows::new();
    let (b, bulk_each) = run(&s, &mut each, true);
    assert_eq!(bulk_each, 0);
    assert_eq!(a.counters.new, 120);
    assert_eq!(b.counters.new, 120);
    assert_eq!(snapshot(&batched), snapshot(&each));
}

#[test]
fn incremental_run_stores_only_new_uids() {
    let mut rows = Rows::new();
    run(&server(1..=100), &mut rows, false);
    let (c, _) = run(&server(1..=102), &mut rows, false);
    assert_eq!(c.counters.processed, 2);
    assert_eq!(c.counters.new, 2);
    assert_eq!(*rows.keys().max().unwrap(), 102);
}
