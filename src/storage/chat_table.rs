//! The concurrent table of chat states behind the volatile backend, as seen
//! through the operations that the backend uses.

use dashmap::DashMap;

use vstd::prelude::*;

use crate::storage::{ChatModel, ChatState};

verus! {

#[verifier::external_type_specification]
#[verifier::external_body]
#[verifier::reject_recursive_types(K)]
#[verifier::reject_recursive_types(V)]
#[verifier::reject_recursive_types(S)]
pub struct ExDashMap<K, V, S>(DashMap<K, V, S>);

/// What a table of chats holds: the state of each chat id present in it.
pub uninterp spec fn chat_table(m: DashMap<i64, ChatState>) -> Map<i64, ChatModel>;

/// Relies on `dashmap::DashMap::new`: a new map holds no entry.
#[verifier::external_body]
pub(crate) fn table_new() -> (r: DashMap<i64, ChatState>)
    ensures
        chat_table(r).dom().is_empty(),
{
    DashMap::new()
}

/// Relies on `dashmap::DashMap::get`: it finds the value stored under the key,
/// which is handed out as a copy.
#[verifier::external_body]
pub(crate) fn table_get(m: &DashMap<i64, ChatState>, chat_id: i64) -> (r: Option<ChatState>)
    ensures
        r is Some <==> chat_table(*m).contains_key(chat_id),
        r matches Some(s) ==> s@ == chat_table(*m)[chat_id],
{
    m.get(&chat_id).map(|entry| entry.value().clone())
}

/// Relies on `dashmap::DashMap::insert`: afterwards the key maps to the new
/// value and every other key is unchanged.
#[verifier::external_body]
pub(crate) fn table_insert(m: &mut DashMap<i64, ChatState>, chat_id: i64, state: ChatState)
    ensures
        chat_table(*final(m)) == chat_table(*old(m)).insert(chat_id, state@),
{
    m.insert(chat_id, state);
}

} // verus!
