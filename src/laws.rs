//! What ingestion does to a mailbox's stored rows, and the laws it obeys.
//!
//! The rows of one mailbox are modelled as a map from UID to record. Storing
//! a record keeps the first row for a UID: the store's uniqueness constraint
//! on (mailbox, UID) turns a second insert into "already stored".

use vstd::prelude::*;
use crate::models::NewEmailView;
use crate::sync::{batch_records, BATCH_SIZE};
use crate::translate::{prepared, FetchedMessage};

verus! {

/// The rows of one mailbox, by UID.
pub type MailboxRows = Map<i64, NewEmailView>;

/// Whether the UID of a fetch result is stored.
pub open spec fn is_stored(rows: MailboxRows, m: FetchedMessage) -> bool {
    match m.uid {
        Some(u) => rows.contains_key(u as i64),
        None => false,
    }
}

/// Which UIDs of a list of fetch results are stored.
pub open spec fn stored_flags(rows: MailboxRows, msgs: Seq<FetchedMessage>) -> Seq<bool> {
    msgs.map_values(|m: FetchedMessage| is_stored(rows, m))
}

/// Handles one fetch result as an incremental sync does: look the UID up,
/// translate, insert.
pub open spec fn apply_message(rows: MailboxRows, m: FetchedMessage, mailbox_id: i64) -> MailboxRows {
    match prepared(m, is_stored(rows, m), mailbox_id) {
        Ok(Some(r)) => rows.insert(r.uid, r),
        _ => rows,
    }
}

/// Handles fetch results one at a time, in order.
pub open spec fn ingest_each(rows: MailboxRows, msgs: Seq<FetchedMessage>, mailbox_id: i64) -> MailboxRows
    decreases msgs.len(),
{
    if msgs.len() == 0 {
        rows
    } else {
        apply_message(ingest_each(rows, msgs.drop_last(), mailbox_id), msgs.last(), mailbox_id)
    }
}

/// Stores records in order, keeping the row already there for a UID.
pub open spec fn insert_or_ignore(rows: MailboxRows, records: Seq<NewEmailView>) -> MailboxRows
    decreases records.len(),
{
    if records.len() == 0 {
        rows
    } else {
        let before = insert_or_ignore(rows, records.drop_last());
        let r = records.last();
        if before.contains_key(r.uid) {
            before
        } else {
            before.insert(r.uid, r)
        }
    }
}

/// Handles one batch as a first sync does: look every UID up, translate the
/// new ones, store them with one bulk insert.
pub open spec fn ingest_batch(rows: MailboxRows, msgs: Seq<FetchedMessage>, mailbox_id: i64) -> MailboxRows {
    insert_or_ignore(rows, batch_records(msgs, stored_flags(rows, msgs), mailbox_id))
}

/// Handles fetch results in batches of `BATCH_SIZE`, as a first sync does.
pub open spec fn ingest_batched(rows: MailboxRows, msgs: Seq<FetchedMessage>, mailbox_id: i64) -> MailboxRows
    decreases msgs.len(),
{
    if msgs.len() <= BATCH_SIZE {
        ingest_batch(rows, msgs, mailbox_id)
    } else {
        ingest_batched(
            ingest_batch(rows, msgs.take(BATCH_SIZE as int), mailbox_id),
            msgs.skip(BATCH_SIZE as int),
            mailbox_id,
        )
    }
}

/// `u` is the highest stored UID.
pub open spec fn is_highest(rows: MailboxRows, u: i64) -> bool {
    rows.contains_key(u) && forall|k: i64| #[trigger] rows.contains_key(k) ==> k <= u
}

/// Ingestion only adds rows: every stored row stays, unchanged.
pub proof fn lemma_rows_kept(rows: MailboxRows, msgs: Seq<FetchedMessage>, mailbox_id: i64)
    ensures
        forall|k: i64| #[trigger] rows.contains_key(k) ==> ingest_each(rows, msgs, mailbox_id).contains_key(k)
            && ingest_each(rows, msgs, mailbox_id)[k] == rows[k],
    decreases msgs.len(),
{
    if msgs.len() > 0 {
        lemma_rows_kept(rows, msgs.drop_last(), mailbox_id);
        let before = ingest_each(rows, msgs.drop_last(), mailbox_id);
        let m = msgs.last();
        if let Ok(Some(r)) = prepared(m, is_stored(before, m), mailbox_id) {
            assert(!before.contains_key(r.uid));
        }
    }
}

/// After any sync, the highest stored UID is at least what it was before.
pub proof fn lemma_watermark_monotonic(
    rows: MailboxRows,
    msgs: Seq<FetchedMessage>,
    mailbox_id: i64,
    before: i64,
    after: i64,
)
    requires
        is_highest(rows, before),
        is_highest(ingest_each(rows, msgs, mailbox_id), after),
    ensures
        before <= after,
{
    lemma_rows_kept(rows, msgs, mailbox_id);
    assert(ingest_each(rows, msgs, mailbox_id).contains_key(before));
}

/// Handling `a` then `b` is handling `a + b`.
pub proof fn lemma_ingest_each_append(rows: MailboxRows, a: Seq<FetchedMessage>, b: Seq<FetchedMessage>, mailbox_id: i64)
    ensures
        ingest_each(ingest_each(rows, a, mailbox_id), b, mailbox_id) == ingest_each(rows, a + b, mailbox_id),
    decreases b.len(),
{
    if b.len() == 0 {
        assert(a + b =~= a);
    } else {
        lemma_ingest_each_append(rows, a, b.drop_last(), mailbox_id);
        assert((a + b).drop_last() =~= a + b.drop_last());
        assert((a + b).last() == b.last());
    }
}

/// One bulk-inserted batch leaves the same rows as its messages handled one
/// at a time.
pub proof fn lemma_batch_is_each(rows: MailboxRows, msgs: Seq<FetchedMessage>, mailbox_id: i64)
    ensures
        ingest_batch(rows, msgs, mailbox_id) == ingest_each(rows, msgs, mailbox_id),
    decreases msgs.len(),
{
    if msgs.len() > 0 {
        let k = msgs.len() - 1;
        let init = msgs.drop_last();
        lemma_batch_is_each(rows, init, mailbox_id);
        lemma_rows_kept(rows, init, mailbox_id);
        let flags = stored_flags(rows, msgs);
        assert(msgs.take(k) =~= init);
        assert(flags.take(k) =~= stored_flags(rows, init));
        let prev = batch_records(init, stored_flags(rows, init), mailbox_id);
        let before = ingest_each(rows, init, mailbox_id);
        assert(insert_or_ignore(rows, prev) == before);
        let m = msgs.last();
        assert(flags[k] == is_stored(rows, m));
        match prepared(m, flags[k], mailbox_id) {
            Ok(Some(r)) => {
                assert(batch_records(msgs, flags, mailbox_id) == prev.push(r));
                assert(prev.push(r).drop_last() =~= prev);
                if is_stored(before, m) {
                    assert(before.contains_key(r.uid));
                }
            },
            _ => {
                assert(batch_records(msgs, flags, mailbox_id) == prev);
                if let Some(u) = m.uid {
                    if is_stored(rows, m) {
                        assert(before.contains_key(u as i64));
                    }
                }
            },
        }
    }
}

/// Syncing in batches of `BATCH_SIZE` with bulk inserts leaves exactly the
/// rows that syncing the same messages one at a time leaves.
pub proof fn lemma_batched_equals_each(rows: MailboxRows, msgs: Seq<FetchedMessage>, mailbox_id: i64)
    ensures
        ingest_batched(rows, msgs, mailbox_id) == ingest_each(rows, msgs, mailbox_id),
    decreases msgs.len(),
{
    if msgs.len() <= BATCH_SIZE {
        lemma_batch_is_each(rows, msgs, mailbox_id);
    } else {
        let head = msgs.take(BATCH_SIZE as int);
        let tail = msgs.skip(BATCH_SIZE as int);
        lemma_batch_is_each(rows, head, mailbox_id);
        lemma_batched_equals_each(ingest_batch(rows, head, mailbox_id), tail, mailbox_id);
        lemma_ingest_each_append(rows, head, tail, mailbox_id);
        assert(head + tail =~= msgs);
    }
}

/// After handling `msgs`, the UID of every one of them that translates is
/// stored.
pub proof fn lemma_translatable_stored(rows: MailboxRows, msgs: Seq<FetchedMessage>, mailbox_id: i64, i: int)
    requires
        0 <= i < msgs.len(),
        msgs[i].uid is Some,
        prepared(msgs[i], false, mailbox_id) is Ok,
    ensures
        ingest_each(rows, msgs, mailbox_id).contains_key(msgs[i].uid->0 as i64),
    decreases msgs.len(),
{
    let init = msgs.drop_last();
    let before = ingest_each(rows, init, mailbox_id);
    if i < msgs.len() - 1 {
        lemma_translatable_stored(rows, init, mailbox_id, i);
        lemma_rows_kept(before, seq![msgs.last()], mailbox_id);
        assert(seq![msgs.last()].drop_last() =~= Seq::<FetchedMessage>::empty());
    } else {
        let u = msgs[i].uid->0;
        if !before.contains_key(u as i64) {
            assert(prepared(msgs[i], is_stored(before, msgs[i]), mailbox_id) is Ok);
        }
    }
}

/// Running ingestion again over messages already handled changes nothing:
/// no row is added, none is duplicated.
pub proof fn lemma_ingest_idempotent(
    rows: MailboxRows,
    msgs: Seq<FetchedMessage>,
    again: Seq<FetchedMessage>,
    mailbox_id: i64,
)
    requires
        forall|j: int| 0 <= j < again.len() ==> msgs.contains(#[trigger] again[j]),
    ensures
        ingest_each(ingest_each(rows, msgs, mailbox_id), again, mailbox_id) == ingest_each(rows, msgs, mailbox_id),
    decreases again.len(),
{
    let done = ingest_each(rows, msgs, mailbox_id);
    if again.len() > 0 {
        let init = again.drop_last();
        assert forall|j: int| 0 <= j < init.len() implies msgs.contains(#[trigger] init[j]) by {
            assert(init[j] == again[j]);
        }
        lemma_ingest_idempotent(rows, msgs, init, mailbox_id);
        let m = again.last();
        assert(msgs.contains(again[again.len() - 1]));
        let i = choose|i: int| 0 <= i < msgs.len() && msgs[i] == m;
        if let Some(u) = m.uid {
            if !done.contains_key(u as i64) && prepared(m, false, mailbox_id) is Ok {
                lemma_translatable_stored(rows, msgs, mailbox_id, i);
            }
        }
    }
}

/// Syncing the same messages twice in batches leaves the rows of one sync.
pub proof fn lemma_batched_idempotent(rows: MailboxRows, msgs: Seq<FetchedMessage>, mailbox_id: i64)
    ensures
        ingest_batched(ingest_batched(rows, msgs, mailbox_id), msgs, mailbox_id) == ingest_batched(rows, msgs, mailbox_id),
{
    lemma_batched_equals_each(rows, msgs, mailbox_id);
    lemma_batched_equals_each(ingest_each(rows, msgs, mailbox_id), msgs, mailbox_id);
    assert forall|j: int| 0 <= j < msgs.len() implies msgs.contains(#[trigger] msgs[j]) by {}
    lemma_ingest_idempotent(rows, msgs, msgs, mailbox_id);
}

} // verus!
