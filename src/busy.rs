//! The admission controller: the set of chats that have a completion request
//! in flight. A chat is admitted only while it is not in the set, and its
//! guard takes it out again.

use dashmap::DashSet;

use vstd::prelude::*;

verus! {

#[verifier::external_type_specification]
#[verifier::external_body]
#[verifier::reject_recursive_types(K)]
#[verifier::reject_recursive_types(S)]
pub struct ExDashSet<K, S>(DashSet<K, S>);

/// What a set of busy chats holds.
pub uninterp spec fn busy_ids(s: DashSet<i64>) -> Set<i64>;

/// Relies on `dashmap::DashSet::new`: a new set is empty.
#[verifier::external_body]
fn set_new() -> (r: DashSet<i64>)
    ensures
        busy_ids(r).is_empty(),
{
    DashSet::new()
}

/// Relies on `dashmap::DashSet::insert`: it adds the key and returns whether
/// the key was absent before.
#[verifier::external_body]
fn set_insert(s: &mut DashSet<i64>, chat_id: i64) -> (r: bool)
    ensures
        r == !busy_ids(*old(s)).contains(chat_id),
        busy_ids(*final(s)) == busy_ids(*old(s)).insert(chat_id),
{
    s.insert(chat_id)
}

/// Relies on `dashmap::DashSet::remove`: afterwards the key is absent and
/// every other key is unchanged.
#[verifier::external_body]
fn set_remove(s: &mut DashSet<i64>, chat_id: i64)
    ensures
        busy_ids(*final(s)) == busy_ids(*old(s)).remove(chat_id),
{
    s.remove(&chat_id);
}

/// Relies on `dashmap::DashSet::contains`: whether the key is present.
#[verifier::external_body]
fn set_contains(s: &DashSet<i64>, chat_id: i64) -> (r: bool)
    ensures
        r == busy_ids(*s).contains(chat_id),
{
    s.contains(&chat_id)
}

/// Relies on `dashmap::DashSet::len`: the number of keys in the set.
#[verifier::external_body]
fn set_len(s: &DashSet<i64>) -> (r: usize)
    ensures
        r as nat == busy_ids(*s).len(),
{
    s.len()
}

/// Whether `chat_id` is admitted: it is when it is not in the set.
pub open spec fn admits(busy: Set<i64>, chat_id: i64) -> bool {
    !busy.contains(chat_id)
}

/// The busy set after `chat_id` is admitted.
pub open spec fn after_admit(busy: Set<i64>, chat_id: i64) -> Set<i64> {
    busy.insert(chat_id)
}

/// The busy set after the guard of `chat_id` is released.
pub open spec fn after_release(busy: Set<i64>, chat_id: i64) -> Set<i64> {
    busy.remove(chat_id)
}

/// Proof that a chat was admitted; handing it back to [`BusySet::release`]
/// ends the chat's request.
pub struct BusyGuard {
    chat_id: i64,
}

impl BusyGuard {
    pub closed spec fn spec_chat_id(&self) -> i64 {
        self.chat_id
    }

    /// The chat that this guard admitted.
    pub fn chat_id(&self) -> (r: i64)
        ensures
            r == self.spec_chat_id(),
    {
        self.chat_id
    }
}

/// The chats that have a request in flight.
pub struct BusySet {
    ids: DashSet<i64>,
}

impl View for BusySet {
    type V = Set<i64>;

    closed spec fn view(&self) -> Set<i64> {
        busy_ids(self.ids)
    }
}

impl BusySet {
    /// A controller with no chat busy.
    pub fn new() -> (r: BusySet)
        ensures
            r@ == Set::<i64>::empty(),
    {
        let r = BusySet { ids: set_new() };
        assert(r@ =~= Set::<i64>::empty());
        r
    }

    /// Admits a chat that has no request in flight, and hands out its guard;
    /// rejects it, leaving the set as it was, where it has one.
    pub fn try_admit(&mut self, chat_id: i64) -> (r: Option<BusyGuard>)
        ensures
            r is Some <==> admits(old(self)@, chat_id),
            r matches Some(g) ==> g.spec_chat_id() == chat_id,
            final(self)@ == after_admit(old(self)@, chat_id),
    {
        if set_insert(&mut self.ids, chat_id) {
            Some(BusyGuard { chat_id })
        } else {
            None
        }
    }

    /// Ends the request of the guard's chat, so that the chat can be admitted
    /// again.
    pub fn release(&mut self, guard: BusyGuard)
        ensures
            final(self)@ == after_release(old(self)@, guard.spec_chat_id()),
    {
        set_remove(&mut self.ids, guard.chat_id);
    }

    /// Whether a chat has a request in flight.
    pub fn is_busy(&self, chat_id: i64) -> (r: bool)
        ensures
            r == self@.contains(chat_id),
    {
        set_contains(&self.ids, chat_id)
    }

    /// Number of chats with a request in flight.
    pub fn len(&self) -> (r: usize)
        ensures
            r as nat == self@.len(),
    {
        set_len(&self.ids)
    }

    /// Whether no chat has a request in flight.
    pub fn is_empty(&self) -> (r: bool)
        ensures
            r == (self@.len() == 0),
    {
        set_len(&self.ids) == 0
    }
}

/// A chat that was just admitted is rejected until its guard is released.
pub proof fn lemma_second_admit_rejected(busy: Set<i64>, chat_id: i64)
    ensures
        !admits(after_admit(busy, chat_id), chat_id),
{
}

/// Once the guard of a chat is released, the chat is admitted again.
pub proof fn lemma_release_readmits(busy: Set<i64>, chat_id: i64)
    ensures
        admits(after_release(busy, chat_id), chat_id),
        admits(after_release(after_admit(busy, chat_id), chat_id), chat_id),
{
}

} // verus!
