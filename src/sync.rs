//! The per-mailbox synchronisation algorithm as a state machine.
//!
//! The machine decides; the caller performs. Each method takes the outcome of
//! the last action (a connection, a fetch, an insert) and returns the next
//! action. A first sync (no UID stored yet) walks the folder in batches of
//! `BATCH_SIZE` sequence numbers and stores each batch with one bulk insert;
//! an incremental sync fetches every UID above the stored maximum and stores
//! the messages one at a time. Messages that cannot be translated or stored
//! are skipped; only connection, authentication, selection, fetch and
//! credential failures end the run early.

use vstd::prelude::*;
use crate::models::{ImapConfig, NewEmail, NewEmailView, RunStatus};
use crate::text::{join3, owned};
use crate::translate::{prepare_email_data, prepared, FetchedMessage};
use crate::vault::{decrypted, error_text, lemma_decrypted_unique, VaultError};

verus! {

/// Number of sequence numbers fetched per batch in a first sync.
pub const BATCH_SIZE: u32 = 50;

/// The counters of one run.
#[derive(Clone, Copy, Debug, PartialEq, Eq, Structural)]
pub struct RunCounters {
    /// Messages handled: stored now or found already stored.
    pub processed: u64,
    /// Messages stored by this run.
    pub new: u64,
    /// Messages of an incremental sync that were found already stored.
    pub updated: u64,
}

/// `a + k`, saturating at `u64::MAX`.
pub open spec fn sat_add(a: u64, k: int) -> u64 {
    if a + k > u64::MAX {
        u64::MAX
    } else {
        (a + k) as u64
    }
}

/// Counters that start at zero.
pub open spec fn zero_counters() -> RunCounters {
    RunCounters { processed: 0, new: 0, updated: 0 }
}

/// The views of a sequence of records.
pub open spec fn views(v: Seq<NewEmail>) -> Seq<NewEmailView> {
    v.map_values(|e: NewEmail| e@)
}

/// The records to store out of a list of fetch results, in order: those that
/// are not stored yet and translate.
pub open spec fn batch_records(msgs: Seq<FetchedMessage>, stored: Seq<bool>, mailbox_id: i64) -> Seq<NewEmailView>
    decreases msgs.len(),
{
    if msgs.len() == 0 {
        seq![]
    } else {
        let k = msgs.len() - 1;
        let prev = batch_records(msgs.take(k), stored.take(k), mailbox_id);
        match prepared(msgs[k], stored[k], mailbox_id) {
            Ok(Some(r)) => prev.push(r),
            _ => prev,
        }
    }
}

/// How many of a list of fetch results were found already stored.
pub open spec fn skipped_count(msgs: Seq<FetchedMessage>, stored: Seq<bool>, mailbox_id: i64) -> nat
    decreases msgs.len(),
{
    if msgs.len() == 0 {
        0
    } else {
        let k = msgs.len() - 1;
        let prev = skipped_count(msgs.take(k), stored.take(k), mailbox_id);
        match prepared(msgs[k], stored[k], mailbox_id) {
            Ok(None) => prev + 1,
            _ => prev,
        }
    }
}

/// Prepares a list of fetch results; `stored[i]` tells whether the UID of
/// `msgs[i]` is already stored. Returns the records to store and the number
/// of messages found already stored; the others are skipped.
pub fn prepare_all(msgs: &Vec<FetchedMessage>, stored: &Vec<bool>, mailbox_id: i64) -> (r: (Vec<NewEmail>, u64))
    requires
        msgs@.len() == stored@.len(),
    ensures
        views(r.0@) == batch_records(msgs@, stored@, mailbox_id),
        r.1 == skipped_count(msgs@, stored@, mailbox_id),
{
    let mut records: Vec<NewEmail> = Vec::new();
    let mut skipped: u64 = 0;
    let mut i: usize = 0;
    while i < msgs.len()
        invariant
            i <= msgs@.len(),
            msgs@.len() == stored@.len(),
            views(records@) == batch_records(msgs@.take(i as int), stored@.take(i as int), mailbox_id),
            skipped == skipped_count(msgs@.take(i as int), stored@.take(i as int), mailbox_id),
            skipped <= i,
        decreases msgs@.len() - i,
    {
        let p = prepare_email_data(&msgs[i], stored[i], mailbox_id);
        proof {
            assert(msgs@.take(i + 1).take(i as int) =~= msgs@.take(i as int));
            assert(stored@.take(i + 1).take(i as int) =~= stored@.take(i as int));
            assert(msgs@.take(i + 1)[i as int] == msgs@[i as int]);
            assert(stored@.take(i + 1)[i as int] == stored@[i as int]);
        }
        match p {
            Ok(Some(r)) => {
                let ghost before = records@;
                records.push(r);
                assert(views(records@) =~= views(before).push(r@));
            },
            Ok(None) => {
                skipped = skipped + 1;
            },
            Err(_) => {},
        }
        i = i + 1;
    }
    assert(msgs@.take(i as int) =~= msgs@);
    assert(stored@.take(i as int) =~= stored@);
    (records, skipped)
}

/// The last sequence number of the batch that starts at `start`.
pub open spec fn batch_end(start: u32, total: u32) -> u32 {
    if start + BATCH_SIZE - 1 < total {
        (start + BATCH_SIZE - 1) as u32
    } else {
        total
    }
}

/// How a run ended.
#[derive(Clone, Debug)]
pub struct RunCompletion {
    pub status: RunStatus,
    pub error_message: Option<String>,
    pub counters: RunCounters,
}

/// The result of storing one record.
#[derive(Clone, Copy, Debug, PartialEq, Eq, Structural)]
pub enum InsertOutcome {
    /// The record was stored.
    Inserted,
    /// A row with the same (mailbox, UID) exists already.
    AlreadyStored,
    /// The store refused the record for another reason.
    Failed,
}

/// What the caller does next.
#[derive(Debug)]
pub enum SyncAction {
    /// Connect to the server, log in and select the inbox.
    Connect { host: String, port: u16, username: String, password: String },
    /// Read the highest UID stored for the mailbox.
    ReadWatermark,
    /// Read the number of messages in the inbox.
    CountMessages,
    /// Fetch the messages with these sequence numbers, and tell which UIDs
    /// are stored already.
    FetchSequence { start: u32, end: u32 },
    /// Fetch every message from this UID on, and tell which UIDs are stored
    /// already.
    FetchUidsFrom { first_uid: i64 },
    /// Store these records with one bulk insert.
    InsertBatch { records: Vec<NewEmail> },
    /// Store this record.
    Insert { record: NewEmail },
    /// Log out if connected, and record the run as ended.
    Finish { completion: RunCompletion },
}

/// Where a run stands.
#[derive(Debug)]
pub enum SyncPhase {
    /// Waiting for the connection, login and folder selection.
    Connecting,
    /// Waiting for the stored UID watermark.
    AwaitingWatermark,
    /// First sync: waiting for the number of messages.
    AwaitingTotal,
    /// First sync: waiting for the messages of one batch.
    AwaitingBatch { start: u32, end: u32, total: u32 },
    /// First sync: waiting for the bulk insert of one batch.
    AwaitingBatchInsert { end: u32, total: u32 },
    /// Incremental sync: waiting for the new messages.
    AwaitingNewMessages,
    /// Incremental sync: waiting for the insert of one record; `queue` holds
    /// the records still to insert after it.
    Inserting { queue: Vec<NewEmail> },
    /// The run has ended.
    Finished,
}

/// One run of the synchronisation algorithm over one mailbox.
#[derive(Debug)]
pub struct MailboxSync {
    pub mailbox_id: i64,
    pub counters: RunCounters,
    pub phase: SyncPhase,
}

/// `a` ends the run with the given status, message and counters.
pub open spec fn finishes(a: SyncAction, status: RunStatus, message: Option<Seq<char>>, counters: RunCounters) -> bool {
    a matches SyncAction::Finish { completion } && completion.status == status
        && crate::models::opt_text(completion.error_message) == message && completion.counters == counters
}

/// The prefix of the message recorded when the password cannot be decrypted.
pub open spec fn decrypt_failure_prefix() -> Seq<char> {
    "Failed to decrypt password: "@
}

impl MailboxSync {
    /// The machine is consistent: batch bounds are ordered.
    pub open spec fn wf(&self) -> bool {
        match self.phase {
            SyncPhase::AwaitingBatch { start, end, total } => 1 <= start <= end <= total && end == batch_end(start, total),
            SyncPhase::AwaitingBatchInsert { end, total } => end <= total,
            _ => true,
        }
    }

    /// `a` and the new state of `self` move on after the batch ending at
    /// `end`: to the next batch, or to the end of a completed run.
    pub open spec fn advanced(&self, a: SyncAction, end: u32, total: u32) -> bool {
        if end < total {
            let start = (end + 1) as u32;
            &&& self.phase == (SyncPhase::AwaitingBatch { start, end: batch_end(start, total), total })
            &&& a == (SyncAction::FetchSequence { start, end: batch_end(start, total) })
        } else {
            &&& self.phase is Finished
            &&& finishes(a, RunStatus::Completed, None, self.counters)
        }
    }

    fn finish(&mut self, status: RunStatus, error_message: Option<String>) -> (a: SyncAction)
        ensures
            final(self).phase is Finished,
            final(self).mailbox_id == old(self).mailbox_id,
            final(self).counters == old(self).counters,
            a matches SyncAction::Finish { completion } && completion.status == status
                && completion.error_message == error_message && completion.counters == old(self).counters,
    {
        self.phase = SyncPhase::Finished;
        SyncAction::Finish { completion: RunCompletion { status, error_message, counters: self.counters } }
    }

    fn next_batch(&mut self, end: u32, total: u32) -> (a: SyncAction)
        requires
            end <= total,
        ensures
            final(self).advanced(a, end, total),
            final(self).wf(),
            final(self).mailbox_id == old(self).mailbox_id,
            final(self).counters == old(self).counters,
    {
        if end < total {
            let start = end + 1;
            let last = if total - start < BATCH_SIZE - 1 {
                total
            } else {
                start + (BATCH_SIZE - 1)
            };
            self.phase = SyncPhase::AwaitingBatch { start, end: last, total };
            SyncAction::FetchSequence { start, end: last }
        } else {
            self.finish(RunStatus::Completed, None)
        }
    }

    /// Starts a run: decrypts the mailbox password and asks for a connection,
    /// or ends the run as failed when the password cannot be decrypted or the
    /// port is not a TCP port.
    pub fn start(config: &ImapConfig, passphrase: &str) -> (r: (MailboxSync, SyncAction))
        ensures
            r.0.mailbox_id == config.id,
            r.0.counters == zero_counters(),
            r.0.wf(),
            r.1 matches SyncAction::Connect { host, port, username, password } ==> {
                &&& decrypted(config.password_encrypted@, passphrase@, Ok(password@))
                &&& host@ == config.mail_host@
                &&& username@ == config.username@
                &&& port as i64 == config.mail_port
                &&& r.0.phase is Connecting
            },
            r.1 is Connect || r.0.phase is Finished,
            forall|e: VaultError| decrypted(config.password_encrypted@, passphrase@, Err(e))
                ==> #[trigger] finishes(r.1, RunStatus::Failed, Some(decrypt_failure_prefix() + error_text(e)), zero_counters()),
            (exists|s: Seq<char>| decrypted(config.password_encrypted@, passphrase@, Ok(s))) ==> {
                ||| r.1 is Connect
                ||| (config.mail_port < 0 || config.mail_port > 65535) && finishes(r.1, RunStatus::Failed, Some("invalid mail port"@), zero_counters())
            },
    {
        let mut sync = MailboxSync { mailbox_id: config.id, counters: RunCounters { processed: 0, new: 0, updated: 0 }, phase: SyncPhase::Connecting };
        match config.decrypt_password(passphrase) {
            Err(e) => {
                let text = e.message();
                let message = join3("Failed to decrypt password: ", text.as_str(), "");
                proof {
                    reveal_strlit("");
                }
                assert(message@ =~= decrypt_failure_prefix() + error_text(e));
                let a = sync.finish(RunStatus::Failed, Some(message));
                proof {
                    assert forall|e2: VaultError| decrypted(config.password_encrypted@, passphrase@, Err(e2)) implies e2 == e by {
                        lemma_decrypted_unique(config.password_encrypted@, passphrase@, Err(e), Err(e2));
                    }
                    assert forall|s: Seq<char>| !decrypted(config.password_encrypted@, passphrase@, Ok(s)) by {
                        if decrypted(config.password_encrypted@, passphrase@, Ok(s)) {
                            lemma_decrypted_unique(config.password_encrypted@, passphrase@, Err(e), Ok(s));
                        }
                    }
                }
                (sync, a)
            },
            Ok(password) => {
                proof {
                    assert forall|e2: VaultError| !decrypted(config.password_encrypted@, passphrase@, Err(e2)) by {
                        if decrypted(config.password_encrypted@, passphrase@, Err(e2)) {
                            lemma_decrypted_unique(config.password_encrypted@, passphrase@, Ok(password@), Err(e2));
                        }
                    }
                }
                if config.mail_port < 0 || config.mail_port > 65535 {
                    let a = sync.finish(RunStatus::Failed, Some(owned("invalid mail port")));
                    (sync, a)
                } else {
                    let a = SyncAction::Connect {
                        host: config.mail_host.clone(),
                        port: config.mail_port as u16,
                        username: config.username.clone(),
                        password,
                    };
                    (sync, a)
                }
            },
        }
    }

    /// The connection is up, the user logged in and the inbox selected: ask
    /// for the stored watermark.
    pub fn on_connected(&mut self) -> (a: SyncAction)
        requires
            old(self).phase is Connecting,
        ensures
            a is ReadWatermark,
            final(self).phase is AwaitingWatermark,
            final(self).mailbox_id == old(self).mailbox_id,
            final(self).counters == old(self).counters,
            final(self).wf(),
    {
        self.phase = SyncPhase::AwaitingWatermark;
        SyncAction::ReadWatermark
    }

    /// The last action failed in a way that ends the run (connection, login,
    /// selection, fetch or store read): end it as failed with that message.
    pub fn on_failure(&mut self, message: String) -> (a: SyncAction)
        requires
            !(old(self).phase is Finished),
        ensures
            finishes(a, RunStatus::Failed, Some(message@), old(self).counters),
            final(self).phase is Finished,
            final(self).mailbox_id == old(self).mailbox_id,
            final(self).counters == old(self).counters,
            final(self).wf(),
    {
        self.finish(RunStatus::Failed, Some(message))
    }

    /// The watermark is known. With none, a first sync starts by counting the
    /// messages; with UID `u`, an incremental sync fetches from `u + 1` (no UID
    /// can follow `i64::MAX`, so that watermark ends the run at once).
    pub fn on_watermark(&mut self, highest: Option<i64>) -> (a: SyncAction)
        requires
            old(self).phase is AwaitingWatermark,
        ensures
            final(self).mailbox_id == old(self).mailbox_id,
            final(self).counters == old(self).counters,
            final(self).wf(),
            highest is None ==> a is CountMessages && final(self).phase is AwaitingTotal,
            highest matches Some(u) ==> (u < i64::MAX ==> a == (SyncAction::FetchUidsFrom { first_uid: (u + 1) as i64 })
                && final(self).phase is AwaitingNewMessages),
            highest == Some(i64::MAX) ==> finishes(a, RunStatus::Completed, None, old(self).counters)
                && final(self).phase is Finished,
    {
        match highest {
            None => {
                self.phase = SyncPhase::AwaitingTotal;
                SyncAction::CountMessages
            },
            Some(u) => {
                if u < i64::MAX {
                    self.phase = SyncPhase::AwaitingNewMessages;
                    SyncAction::FetchUidsFrom { first_uid: u + 1 }
                } else {
                    self.finish(RunStatus::Completed, None)
                }
            },
        }
    }

    /// First sync: the folder holds `total` messages. An empty folder ends
    /// the run; otherwise the first batch is fetched.
    pub fn on_total(&mut self, total: u32) -> (a: SyncAction)
        requires
            old(self).phase is AwaitingTotal,
        ensures
            final(self).mailbox_id == old(self).mailbox_id,
            final(self).counters == old(self).counters,
            final(self).wf(),
            final(self).advanced(a, 0, total),
    {
        self.next_batch(0, total)
    }

    /// First sync: the messages of the current batch arrived, with
    /// `stored[i]` telling whether the UID of `msgs[i]` is stored already.
    /// Those found stored count as processed; the records of the others are
    /// stored with one bulk insert, or the run moves on if there are none.
    pub fn on_batch_fetched(&mut self, msgs: &Vec<FetchedMessage>, stored: &Vec<bool>) -> (a: SyncAction)
        requires
            old(self).phase is AwaitingBatch,
            old(self).wf(),
            msgs@.len() == stored@.len(),
        ensures
            final(self).mailbox_id == old(self).mailbox_id,
            final(self).wf(),
            ({
                let records = batch_records(msgs@, stored@, old(self).mailbox_id);
                let end = old(self).phase->AwaitingBatch_end;
                let total = old(self).phase->AwaitingBatch_total;
                &&& final(self).counters == (RunCounters {
                    processed: sat_add(old(self).counters.processed, skipped_count(msgs@, stored@, old(self).mailbox_id) as int),
                    ..old(self).counters
                })
                &&& records.len() > 0 ==> (a matches SyncAction::InsertBatch { records: rs } && views(rs@) == records
                    && final(self).phase == (SyncPhase::AwaitingBatchInsert { end, total }))
                &&& records.len() == 0 ==> final(self).advanced(a, end, total)
            }),
    {
        let (records, skipped) = prepare_all(msgs, stored, self.mailbox_id);
        self.counters.processed = self.counters.processed.saturating_add(skipped);
        let (end, total) = match &self.phase {
            SyncPhase::AwaitingBatch { end, total, .. } => (*end, *total),
            _ => (0, 0),
        };
        if records.len() > 0 {
            self.phase = SyncPhase::AwaitingBatchInsert { end, total };
            SyncAction::InsertBatch { records }
        } else {
            self.next_batch(end, total)
        }
    }

    /// First sync: the bulk insert of the current batch returned. The number
    /// of rows it stored counts as processed and new; a failed insert is
    /// skipped. Then the next batch is fetched, or the run completes.
    pub fn on_batch_inserted(&mut self, result: Result<u64, String>) -> (a: SyncAction)
        requires
            old(self).phase is AwaitingBatchInsert,
            old(self).wf(),
        ensures
            final(self).mailbox_id == old(self).mailbox_id,
            final(self).wf(),
            final(self).counters == match result {
                Ok(n) => RunCounters {
                    processed: sat_add(old(self).counters.processed, n as int),
                    new: sat_add(old(self).counters.new, n as int),
                    ..old(self).counters
                },
                Err(_) => old(self).counters,
            },
            final(self).advanced(a, old(self).phase->AwaitingBatchInsert_end, old(self).phase->AwaitingBatchInsert_total),
    {
        if let Ok(n) = result {
            self.counters.processed = self.counters.processed.saturating_add(n);
            self.counters.new = self.counters.new.saturating_add(n);
        }
        let (end, total) = match &self.phase {
            SyncPhase::AwaitingBatchInsert { end, total } => (*end, *total),
            _ => (0, 0),
        };
        self.next_batch(end, total)
    }

    /// Incremental sync: the messages above the watermark arrived, with
    /// `stored[i]` telling whether the UID of `msgs[i]` is stored already.
    /// Those found stored count as processed and updated; the records of the
    /// others are inserted one at a time, in order.
    pub fn on_new_messages(&mut self, msgs: &Vec<FetchedMessage>, stored: &Vec<bool>) -> (a: SyncAction)
        requires
            old(self).phase is AwaitingNewMessages,
            msgs@.len() == stored@.len(),
        ensures
            final(self).mailbox_id == old(self).mailbox_id,
            final(self).wf(),
            ({
                let records = batch_records(msgs@, stored@, old(self).mailbox_id);
                let k = skipped_count(msgs@, stored@, old(self).mailbox_id) as int;
                &&& final(self).counters == (RunCounters {
                    processed: sat_add(old(self).counters.processed, k),
                    updated: sat_add(old(self).counters.updated, k),
                    ..old(self).counters
                })
                &&& records.len() > 0 ==> (a matches SyncAction::Insert { record } && record@ == records[0]
                    && (final(self).phase matches SyncPhase::Inserting { queue } && views(queue@) == records.drop_first()))
                &&& records.len() == 0 ==> finishes(a, RunStatus::Completed, None, final(self).counters)
                    && final(self).phase is Finished
            }),
    {
        let (mut records, skipped) = prepare_all(msgs, stored, self.mailbox_id);
        self.counters.processed = self.counters.processed.saturating_add(skipped);
        self.counters.updated = self.counters.updated.saturating_add(skipped);
        if records.len() > 0 {
            let ghost all = records@;
            let record = records.remove(0);
            assert(views(records@) =~= views(all).drop_first());
            assert(views(all)[0] == all[0]@);
            self.phase = SyncPhase::Inserting { queue: records };
            SyncAction::Insert { record }
        } else {
            self.finish(RunStatus::Completed, None)
        }
    }

    /// Incremental sync: the insert of the current record returned. A stored
    /// record counts as processed and new; one whose (mailbox, UID) exists
    /// already counts as processed and updated, as if it had been found
    /// before; a failed insert is skipped. Then the next queued record is
    /// inserted, or the run completes.
    pub fn on_inserted(&mut self, outcome: InsertOutcome) -> (a: SyncAction)
        requires
            old(self).phase is Inserting,
        ensures
            final(self).mailbox_id == old(self).mailbox_id,
            final(self).wf(),
            final(self).counters == match outcome {
                InsertOutcome::Inserted => RunCounters {
                    processed: sat_add(old(self).counters.processed, 1),
                    new: sat_add(old(self).counters.new, 1),
                    ..old(self).counters
                },
                InsertOutcome::AlreadyStored => RunCounters {
                    processed: sat_add(old(self).counters.processed, 1),
                    updated: sat_add(old(self).counters.updated, 1),
                    ..old(self).counters
                },
                InsertOutcome::Failed => old(self).counters,
            },
            ({
                let q = old(self).phase->queue;
                &&& q@.len() > 0 ==> (a matches SyncAction::Insert { record } && record@ == q@[0]@
                    && (final(self).phase matches SyncPhase::Inserting { queue } && views(queue@) == views(q@).drop_first()))
                &&& q@.len() == 0 ==> finishes(a, RunStatus::Completed, None, final(self).counters)
                    && final(self).phase is Finished
            }),
    {
        match outcome {
            InsertOutcome::Inserted => {
                self.counters.processed = self.counters.processed.saturating_add(1);
                self.counters.new = self.counters.new.saturating_add(1);
            },
            InsertOutcome::AlreadyStored => {
                self.counters.processed = self.counters.processed.saturating_add(1);
                self.counters.updated = self.counters.updated.saturating_add(1);
            },
            InsertOutcome::Failed => {},
        }
        let mut phase = SyncPhase::Finished;
        core::mem::swap(&mut phase, &mut self.phase);
        match phase {
            SyncPhase::Inserting { mut queue } => {
                if queue.len() > 0 {
                    let ghost all = queue@;
                    let record = queue.remove(0);
                    assert(views(queue@) =~= views(all).drop_first());
                    self.phase = SyncPhase::Inserting { queue };
                    SyncAction::Insert { record }
                } else {
                    self.finish(RunStatus::Completed, None)
                }
            },
            _ => self.finish(RunStatus::Completed, None),
        }
    }
}

} // verus!
