//! The durable backend's own logic. History lives in an append-only log of
//! rows per chat, and a per-chat counter says how many of the newest rows are
//! current; a read fetches the newest `min(counter, bound)` rows, newest first,
//! and turns them into chronological order. Clearing resets the counter and
//! keeps the rows.

use vstd::prelude::*;

use crate::lm_types::{Message, MessageModel, messages_view};

verus! {

/// Number of rows that a history read fetches: the counter, capped at the
/// bound; none where the counter is not positive.
pub open spec fn row_limit(counter: int, max: nat) -> int {
    if counter <= 0 {
        0
    } else if counter <= max {
        counter
    } else {
        max as int
    }
}

/// Number of rows that a history read fetches for a chat whose counter is
/// `counter`.
pub fn history_row_limit(counter: i64, max_history_len: usize) -> (r: i64)
    ensures
        r == row_limit(counter as int, max_history_len as nat),
{
    if counter <= 0 {
        0
    } else if counter as u64 <= max_history_len as u64 {
        counter
    } else {
        max_history_len as i64
    }
}

/// Turns rows fetched newest first into a history, oldest first.
pub fn chronological(rows_newest_first: Vec<Message>) -> (r: Vec<Message>)
    ensures
        messages_view(r@) == messages_view(rows_newest_first@).reverse(),
{
    let ghost rows = messages_view(rows_newest_first@);
    let mut rest = rows_newest_first;
    let mut out: Vec<Message> = Vec::new();
    let len = rest.len();
    while rest.len() > 0
        invariant
            len == rows.len(),
            rest@.len() <= len,
            messages_view(rest@) == rows.take(rest@.len() as int),
            messages_view(out@) == rows.reverse().take(len - rest@.len()),
        decreases rest@.len(),
    {
        let ghost before_rest = rest@;
        let ghost before_out = out@;
        let m = rest.pop().unwrap();
        assert(m@ == messages_view(before_rest)[before_rest.len() - 1]);
        out.push(m);
        assert(messages_view(rest@) =~= rows.take(rest@.len() as int));
        assert(messages_view(out@) =~= messages_view(before_out).push(m@));
        assert(messages_view(out@) =~= rows.reverse().take(len - rest@.len()));
    }
    assert(rows.reverse().take(len as int) =~= rows.reverse());
    out
}

/// The value that a read of one attribute returns: what was stored, or
/// `default` where the read failed, found no row, or found the column empty.
pub fn read_or_default<T>(read: Option<Option<T>>, default: T) -> (r: T)
    ensures
        r == (match read {
            Some(Some(v)) => v,
            _ => default,
        }),
{
    match read {
        Some(Some(v)) => v,
        _ => default,
    }
}

/// The durable representation of one chat's history: every row ever written
/// for it, oldest first, and the counter of current rows.
pub struct DurableHistory {
    pub log: Seq<MessageModel>,
    pub counter: nat,
}

/// One change to a chat's history.
pub enum HistoryOp {
    Append(MessageModel),
    Clear,
}

/// The durable representation after `op`: an append writes one row and
/// counts it; a clear resets the counter and keeps the rows.
pub open spec fn durable_apply(d: DurableHistory, op: HistoryOp) -> DurableHistory {
    match op {
        HistoryOp::Append(e) => DurableHistory { log: d.log.push(e), counter: d.counter + 1 },
        HistoryOp::Clear => DurableHistory { counter: 0, ..d },
    }
}

/// What a read of the durable representation returns: the newest
/// `row_limit(counter, max)` rows, fetched newest first and then reversed.
pub open spec fn durable_read(d: DurableHistory, max: nat) -> Seq<MessageModel> {
    d.log.reverse().take(row_limit(d.counter as int, max)).reverse()
}

} // verus!
