//! The history truncation policy: append at the tail, then drop from the head
//! until the history is no longer than the configured bound.

use vstd::prelude::*;

use crate::lm_types::{Message, MessageModel, messages_view};

verus! {

/// The last `min(h.len(), max)` entries of `h`, in their order.
pub open spec fn most_recent<A>(h: Seq<A>, max: nat) -> Seq<A> {
    if h.len() <= max {
        h
    } else {
        h.skip(h.len() - max)
    }
}

/// `h` after `e` is appended under a bound of `max` entries.
pub open spec fn appended<A>(h: Seq<A>, e: A, max: nat) -> Seq<A> {
    most_recent(h.push(e), max)
}

/// `h` after each of `es` is appended in turn.
pub open spec fn appended_all<A>(h: Seq<A>, es: Seq<A>, max: nat) -> Seq<A>
    decreases es.len(),
{
    if es.len() == 0 {
        h
    } else {
        appended(appended_all(h, es.drop_last(), max), es.last(), max)
    }
}

/// Appends `entry` to `history` and drops the oldest entries beyond `max_len`.
pub fn append_trimmed(history: &mut Vec<Message>, entry: Message, max_len: usize)
    ensures
        messages_view(final(history)@) == appended(
            messages_view(old(history)@),
            entry@,
            max_len as nat,
        ),
{
    history.push(entry);
    let len = history.len();
    if len > max_len {
        let tail = history.split_off(len - max_len);
        *history = tail;
    }
    assert(messages_view(history@) =~= appended(messages_view(old(history)@), entry@, max_len as nat));
}

/// The entries of `history` that a read returns under a bound of `max_len`.
pub fn recent_window(history: Vec<Message>, max_len: usize) -> (r: Vec<Message>)
    ensures
        messages_view(r@) == most_recent(messages_view(history@), max_len as nat),
{
    let mut history = history;
    let len = history.len();
    if len > max_len {
        history.split_off(len - max_len)
    } else {
        history
    }
}

} // verus!
