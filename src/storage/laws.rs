//! Laws that relate the store's operations to one another.

use vstd::prelude::*;

use crate::lm_types::MessageModel;
use crate::storage::durable::{DurableHistory, HistoryOp, durable_apply, durable_read, row_limit};
use crate::storage::enablement::settings_after;
use crate::storage::history::{appended, appended_all, most_recent};
use crate::storage::memory_storage::StoreModel;
use crate::storage::notes::without_id;
use crate::storage::{DEFAULT_TEMPERATURE, NoteModel};

verus! {

/// The store after each of `entries` is appended, in turn, to chat `c`.
pub open spec fn appended_each(s: StoreModel, c: i64, entries: Seq<MessageModel>) -> StoreModel
    decreases entries.len(),
{
    if entries.len() == 0 {
        s
    } else {
        appended_each(s, c, entries.drop_last()).appended(c, entries.last())
    }
}

/// Trimming twice to the same bound trims once.
pub proof fn lemma_most_recent_idempotent<A>(h: Seq<A>, max: nat)
    ensures
        most_recent(most_recent(h, max), max) == most_recent(h, max),
        most_recent(h, max).len() <= max,
{
}

/// Appending to a trimmed history and trimming again is trimming the whole.
pub proof fn lemma_trim_push<A>(h: Seq<A>, e: A, max: nat)
    ensures
        most_recent(most_recent(h, max).push(e), max) == most_recent(h.push(e), max),
{
    if h.len() > max {
        let k = h.len() - max;
        assert(h.skip(k).push(e) =~= h.push(e).skip(k));
        assert(h.push(e).skip(k).skip(1) =~= h.push(e).skip(h.push(e).len() - max));
    }
}

/// Appending entries one by one under a bound keeps the most recent of all of
/// them, in order.
pub proof fn lemma_appended_all<A>(h: Seq<A>, entries: Seq<A>, max: nat)
    requires
        h.len() <= max,
    ensures
        appended_all(h, entries, max) == most_recent(h + entries, max),
    decreases entries.len(),
{
    if entries.len() == 0 {
        assert(h + entries =~= h);
    } else {
        lemma_appended_all(h, entries.drop_last(), max);
        lemma_trim_push(h + entries.drop_last(), entries.last(), max);
        assert((h + entries.drop_last()).push(entries.last()) =~= h + entries);
    }
}

proof fn lemma_appended_each_chat(s: StoreModel, c: i64, entries: Seq<MessageModel>)
    ensures
        appended_each(s, c, entries).chat(c).history == appended_all(
            s.chat(c).history,
            entries,
            s.max_history_len,
        ),
        appended_each(s, c, entries).max_history_len == s.max_history_len,
    decreases entries.len(),
{
    if entries.len() > 0 {
        lemma_appended_each_chat(s, c, entries.drop_last());
    }
}

/// After any sequence of appends to a chat, a read of its history returns the
/// most recent `min(n, max_history_len)` of everything appended, in the order
/// it was appended, and so never more than `max_history_len` entries. For a
/// chat whose history was empty, that is the most recent of `entries` alone.
pub proof fn lemma_history_keeps_most_recent(s: StoreModel, c: i64, entries: Seq<MessageModel>)
    requires
        s.chat(c).history.len() <= s.max_history_len,
    ensures
        appended_each(s, c, entries).history(c) == most_recent(
            s.chat(c).history + entries,
            s.max_history_len,
        ),
        appended_each(s, c, entries).history(c).len() <= s.max_history_len,
        s.chat(c).history.len() == 0 ==> appended_each(s, c, entries).history(c) == most_recent(
            entries,
            s.max_history_len,
        ),
{
    lemma_appended_each_chat(s, c, entries);
    lemma_appended_all(s.chat(c).history, entries, s.max_history_len);
    lemma_most_recent_idempotent(s.chat(c).history + entries, s.max_history_len);
    if s.chat(c).history.len() == 0 {
        assert(s.chat(c).history + entries =~= entries);
    }
}

/// A chat that was never enabled or disabled is enabled, in every thread.
pub proof fn lemma_unconfigured_chat_enabled(s: StoreModel, c: i64, thread: Option<i64>)
    requires
        s.chat(c).settings is None,
    ensures
        s.is_enabled(c, thread),
{
}

/// In a supergroup, disabling thread `t` disables it, while a thread `u` that
/// was never configured stays enabled.
pub proof fn lemma_disabled_thread(s: StoreModel, c: i64, t: i64, u: i64)
    requires
        t != u,
        s.chat(c).settings matches Some(st) ==> st.is_supergroup && !st.threads.contains_key(u),
    ensures
        !s.with_flag(c, Some(t), true, false).is_enabled(c, Some(t)),
        s.with_flag(c, Some(t), true, false).is_enabled(c, Some(u)),
{
    let after = settings_after(s.chat(c).settings, Some(t), true, false);
    assert(after.threads.contains_key(t) && !after.threads[t]);
    assert(!after.threads.contains_key(u));
}

/// A temperature that is set is the one read back; a chat that was never
/// written to reads the default.
pub proof fn lemma_temperature_round_trip(s: StoreModel, c: i64, t: u16)
    ensures
        s.with_temperature(c, t).temperature(c) == t,
        !s.chats.contains_key(c) ==> s.temperature(c) == DEFAULT_TEMPERATURE,
{
}

/// An added note is listed; once its id is removed, it is not.
pub proof fn lemma_note_round_trip(s: StoreModel, n: NoteModel)
    ensures
        s.with_note(n).notes(n.chat_id).contains(n),
        !s.with_note(n).without_note(n.chat_id, n.note_id).notes(n.chat_id).contains(n),
{
    let listed = s.with_note(n).notes(n.chat_id);
    assert(listed[listed.len() - 1] == n);
    let pred = |m: NoteModel| m.note_id != n.note_id;
    let kept = without_id(listed, n.note_id);
    if kept.contains(n) {
        let i = choose|i: int| 0 <= i < kept.len() && kept[i] == n;
        listed.lemma_filter_pred(pred, i);
    }
}

/// Erasing the notes of a chat leaves none, whatever it held.
pub proof fn lemma_erase_empties(s: StoreModel, c: i64)
    ensures
        s.notes_erased(c).notes(c) == Seq::<NoteModel>::empty(),
{
}

/// A history in the volatile representation after `op`.
pub open spec fn volatile_apply(h: Seq<MessageModel>, op: HistoryOp, max: nat) -> Seq<MessageModel> {
    match op {
        HistoryOp::Append(e) => appended(h, e, max),
        HistoryOp::Clear => Seq::empty(),
    }
}

/// A durable history after each of `ops` in turn.
pub open spec fn durable_apply_all(d: DurableHistory, ops: Seq<HistoryOp>) -> DurableHistory
    decreases ops.len(),
{
    if ops.len() == 0 {
        d
    } else {
        durable_apply(durable_apply_all(d, ops.drop_last()), ops.last())
    }
}

/// A volatile history after each of `ops` in turn.
pub open spec fn volatile_apply_all(h: Seq<MessageModel>, ops: Seq<HistoryOp>, max: nat) -> Seq<MessageModel>
    decreases ops.len(),
{
    if ops.len() == 0 {
        h
    } else {
        volatile_apply(volatile_apply_all(h, ops.drop_last(), max), ops.last(), max)
    }
}

/// The newest `k` rows of `log`, fetched newest first and reversed, are its
/// last `k` rows in order.
pub proof fn lemma_newest_rows(log: Seq<MessageModel>, k: int)
    requires
        0 <= k <= log.len(),
    ensures
        log.reverse().take(k).reverse() == log.skip(log.len() - k),
{
    assert(log.reverse().take(k).reverse() =~= log.skip(log.len() - k));
}

proof fn lemma_parity_invariant(log: Seq<MessageModel>, ops: Seq<HistoryOp>, max: nat)
    ensures
        ({
            let d = durable_apply_all(DurableHistory { log, counter: 0 }, ops);
            &&& d.log.len() >= d.counter
            &&& d.log.len() >= log.len()
            &&& volatile_apply_all(Seq::empty(), ops, max) == most_recent(
                d.log.skip(d.log.len() - d.counter),
                max,
            )
        }),
    decreases ops.len(),
{
    if ops.len() > 0 {
        lemma_parity_invariant(log, ops.drop_last(), max);
        let d = durable_apply_all(DurableHistory { log, counter: 0 }, ops.drop_last());
        let current = d.log.skip(d.log.len() - d.counter);
        match ops.last() {
            HistoryOp::Append(e) => {
                let d2 = durable_apply(d, ops.last());
                assert(d2.log.skip(d2.log.len() - d2.counter) =~= current.push(e));
                lemma_trim_push(current, e, max);
            },
            HistoryOp::Clear => {
                let d2 = durable_apply(d, ops.last());
                assert(d2.log.skip(d2.log.len() - d2.counter) =~= Seq::<MessageModel>::empty());
            },
        }
    } else {
        assert(log.skip(log.len() - 0) =~= Seq::<MessageModel>::empty());
    }
}

/// The durable and the volatile backends read the same history after the same
/// appends and clears, whatever rows the durable log held for the chat
/// before its counter was last zero.
pub proof fn lemma_backend_parity(log: Seq<MessageModel>, ops: Seq<HistoryOp>, max: nat)
    ensures
        durable_read(durable_apply_all(DurableHistory { log, counter: 0 }, ops), max)
            == most_recent(volatile_apply_all(Seq::empty(), ops, max), max),
{
    lemma_parity_invariant(log, ops, max);
    let d = durable_apply_all(DurableHistory { log, counter: 0 }, ops);
    let current = d.log.skip(d.log.len() - d.counter);
    let k = row_limit(d.counter as int, max);
    lemma_newest_rows(d.log, k);
    lemma_most_recent_idempotent(current, max);
    assert(d.log.skip(d.log.len() - k) =~= most_recent(current, max));
}

} // verus!
