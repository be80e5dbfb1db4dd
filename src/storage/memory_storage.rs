//! The volatile backend: every chat's state in one concurrent table.

use dashmap::DashMap;

use vstd::prelude::*;

use crate::lm_types::{Message, MessageModel, messages_view};
use crate::storage::chat_table::{chat_table, table_get, table_insert, table_new};
use crate::storage::enablement::{apply_flag, resolve_enabled, resolved, settings_after};
use crate::storage::history::{append_trimmed, appended, most_recent, recent_window};
use crate::storage::notes::{remove_by_id, without_id};
use crate::storage::{
    ChatModel, ChatState, DEFAULT_MAX_HISTORY_LEN, Note, NoteModel, fresh_chat, notes_view,
};

verus! {

/// The mathematical value of a store: what is kept for each chat, and the
/// bound on history length that reads and appends apply.
pub struct StoreModel {
    pub chats: Map<i64, ChatModel>,
    pub max_history_len: nat,
}

impl StoreModel {
    /// What is kept for chat `c`; a chat never written to has the fresh state.
    pub open spec fn chat(self, c: i64) -> ChatModel {
        if self.chats.contains_key(c) {
            self.chats[c]
        } else {
            fresh_chat()
        }
    }

    /// The history that a read of chat `c` returns.
    pub open spec fn history(self, c: i64) -> Seq<MessageModel> {
        most_recent(self.chat(c).history, self.max_history_len)
    }

    pub open spec fn fingerprint(self, c: i64) -> Seq<char> {
        self.chat(c).fingerprint
    }

    pub open spec fn temperature(self, c: i64) -> u16 {
        self.chat(c).temperature
    }

    pub open spec fn notes(self, c: i64) -> Seq<NoteModel> {
        self.chat(c).notes
    }

    pub open spec fn is_enabled(self, c: i64, thread: Option<i64>) -> bool {
        resolved(self.chat(c).settings, thread)
    }

    /// The store with chat `c` replaced by `m`.
    pub open spec fn with_chat(self, c: i64, m: ChatModel) -> StoreModel {
        StoreModel { chats: self.chats.insert(c, m), ..self }
    }

    /// The store after `e` is appended to the history of chat `c`.
    pub open spec fn appended(self, c: i64, e: MessageModel) -> StoreModel {
        self.with_chat(
            c,
            ChatModel {
                history: appended(self.chat(c).history, e, self.max_history_len),
                ..self.chat(c)
            },
        )
    }

    /// The store after the history of chat `c` is cleared.
    pub open spec fn cleared(self, c: i64) -> StoreModel {
        self.with_chat(c, ChatModel { history: Seq::empty(), ..self.chat(c) })
    }

    pub open spec fn with_fingerprint(self, c: i64, f: Seq<char>) -> StoreModel {
        self.with_chat(c, ChatModel { fingerprint: f, ..self.chat(c) })
    }

    pub open spec fn with_temperature(self, c: i64, t: u16) -> StoreModel {
        self.with_chat(c, ChatModel { temperature: t, ..self.chat(c) })
    }

    /// The store after note `n` is added to its chat.
    pub open spec fn with_note(self, n: NoteModel) -> StoreModel {
        self.with_chat(
            n.chat_id,
            ChatModel { notes: self.chat(n.chat_id).notes.push(n), ..self.chat(n.chat_id) },
        )
    }

    /// The store after every note of chat `c` with id `note_id` is removed.
    pub open spec fn without_note(self, c: i64, note_id: i64) -> StoreModel {
        self.with_chat(c, ChatModel { notes: without_id(self.chat(c).notes, note_id), ..self.chat(c) })
    }

    pub open spec fn notes_erased(self, c: i64) -> StoreModel {
        self.with_chat(c, ChatModel { notes: Seq::empty(), ..self.chat(c) })
    }

    /// The store after the flag of `thread` (or of chat `c` as a whole) is set
    /// to `value`.
    pub open spec fn with_flag(self, c: i64, thread: Option<i64>, is_super: bool, value: bool) -> StoreModel {
        self.with_chat(
            c,
            ChatModel {
                settings: Some(settings_after(self.chat(c).settings, thread, is_super, value)),
                ..self.chat(c)
            },
        )
    }
}

/// Volatile storage: all chat state lives in memory and is lost on exit.
pub struct MemoryStorage {
    chats: DashMap<i64, ChatState>,
    max_history_len: usize,
}

impl View for MemoryStorage {
    type V = StoreModel;

    closed spec fn view(&self) -> StoreModel {
        StoreModel { chats: chat_table(self.chats), max_history_len: self.max_history_len as nat }
    }
}

impl MemoryStorage {
    /// An empty store that keeps the default number of history entries.
    pub fn new() -> (r: MemoryStorage)
        ensures
            r@.chats == Map::<i64, ChatModel>::empty(),
            r@.max_history_len == DEFAULT_MAX_HISTORY_LEN,
    {
        Self::with_max_history_len(DEFAULT_MAX_HISTORY_LEN)
    }

    /// An empty store that keeps at most `max_history_len` entries per chat.
    pub fn with_max_history_len(max_history_len: usize) -> (r: MemoryStorage)
        ensures
            r@.chats == Map::<i64, ChatModel>::empty(),
            r@.max_history_len == max_history_len,
    {
        MemoryStorage { chats: table_new(), max_history_len }
    }

    /// The bound on history length that the next operation applies.
    pub fn max_history_len(&self) -> (r: usize)
        ensures
            r == self@.max_history_len,
    {
        self.max_history_len
    }

    /// Changes the bound on history length for the operations that follow.
    pub fn set_max_history_len(&mut self, max_history_len: usize)
        ensures
            final(self)@ == (StoreModel { max_history_len: max_history_len as nat, ..old(self)@ }),
    {
        self.max_history_len = max_history_len;
    }

    /// What is kept for `chat_id`, or the fresh state.
    fn state_of(&self, chat_id: i64) -> (r: ChatState)
        ensures
            r@ == self@.chat(chat_id),
    {
        match table_get(&self.chats, chat_id) {
            Some(s) => s,
            None => ChatState::new(),
        }
    }

    fn store(&mut self, chat_id: i64, state: ChatState)
        ensures
            final(self)@ == old(self)@.with_chat(chat_id, state@),
    {
        table_insert(&mut self.chats, chat_id, state);
    }

    /// The most recent history entries of a chat, oldest first.
    pub fn get_conversation_context(&self, chat_id: i64) -> (r: Vec<Message>)
        ensures
            messages_view(r@) == self@.history(chat_id),
            r@.len() == self@.history(chat_id).len(),
    {
        recent_window(self.state_of(chat_id).history, self.max_history_len)
    }

    /// Appends a message to a chat's history, dropping the oldest entries
    /// beyond the bound.
    pub fn set_conversation_context(&mut self, chat_id: i64, context: Message)
        ensures
            final(self)@ == old(self)@.appended(chat_id, context@),
    {
        let mut s = self.state_of(chat_id);
        append_trimmed(&mut s.history, context, self.max_history_len);
        self.store(chat_id, s);
    }

    /// Empties a chat's history.
    pub fn clear_conversation_context(&mut self, chat_id: i64)
        ensures
            final(self)@ == old(self)@.cleared(chat_id),
    {
        let mut s = self.state_of(chat_id);
        s.history = Vec::new();
        assert(messages_view(s.history@) =~= Seq::<MessageModel>::empty());
        self.store(chat_id, s);
    }

    /// The persona directive of a chat; empty where none was set.
    pub fn get_system_fingerprint(&self, chat_id: i64) -> (r: String)
        ensures
            r@ == self@.fingerprint(chat_id),
    {
        self.state_of(chat_id).fingerprint
    }

    pub fn set_system_fingerprint(&mut self, chat_id: i64, fingerprint: String)
        ensures
            final(self)@ == old(self)@.with_fingerprint(chat_id, fingerprint@),
    {
        let mut s = self.state_of(chat_id);
        s.fingerprint = fingerprint;
        self.store(chat_id, s);
    }

    /// The temperature of a chat, in hundredths; the default where none was set.
    pub fn get_temperature(&self, chat_id: i64) -> (r: u16)
        ensures
            r == self@.temperature(chat_id),
    {
        self.state_of(chat_id).temperature
    }

    /// Stores a temperature, in hundredths, as given: keeping it in range is
    /// the caller's part.
    pub fn set_temperature(&mut self, chat_id: i64, temperature: u16)
        ensures
            final(self)@ == old(self)@.with_temperature(chat_id, temperature),
    {
        let mut s = self.state_of(chat_id);
        s.temperature = temperature;
        self.store(chat_id, s);
    }

    /// Adds a note to the end of its chat's notes.
    pub fn add_note(&mut self, note: Note)
        ensures
            final(self)@ == old(self)@.with_note(note@),
    {
        let chat_id = note.chat_id;
        let ghost n = note@;
        let mut s = self.state_of(chat_id);
        let ghost before = s.notes@;
        s.notes.push(note);
        assert(notes_view(s.notes@) =~= notes_view(before).push(n));
        self.store(chat_id, s);
    }

    /// Removes every note of a chat with the given id; nothing happens where
    /// there is none.
    pub fn remove_note(&mut self, chat_id: i64, note_id: i64)
        ensures
            final(self)@ == old(self)@.without_note(chat_id, note_id),
    {
        let s = self.state_of(chat_id);
        let ChatState { history, fingerprint, temperature, notes, settings } = s;
        let kept = remove_by_id(notes, note_id);
        self.store(chat_id, ChatState { history, fingerprint, temperature, notes: kept, settings });
    }

    /// The notes of a chat, in the order they were added.
    pub fn list_notes(&self, chat_id: i64) -> (r: Vec<Note>)
        ensures
            notes_view(r@) == self@.notes(chat_id),
            r@.len() == self@.notes(chat_id).len(),
    {
        self.state_of(chat_id).notes
    }

    /// Removes all notes of a chat.
    pub fn erase_notes(&mut self, chat_id: i64)
        ensures
            final(self)@ == old(self)@.notes_erased(chat_id),
    {
        let mut s = self.state_of(chat_id);
        s.notes = Vec::new();
        assert(notes_view(s.notes@) =~= Seq::<NoteModel>::empty());
        self.store(chat_id, s);
    }

    fn set_flag(&mut self, chat_id: i64, thread_id: Option<i64>, is_super: bool, value: bool)
        ensures
            final(self)@ == old(self)@.with_flag(chat_id, thread_id, is_super, value),
    {
        let s = self.state_of(chat_id);
        let ChatState { history, fingerprint, temperature, notes, settings } = s;
        let settings = Some(apply_flag(settings, thread_id, is_super, value));
        self.store(chat_id, ChatState { history, fingerprint, temperature, notes, settings });
    }

    /// Enables the bot in a thread, or in the whole chat where no thread is
    /// given. `is_super` is recorded only where the chat has no settings yet.
    pub fn enable(&mut self, chat_id: i64, thread_id: Option<i64>, is_super: bool)
        ensures
            final(self)@ == old(self)@.with_flag(chat_id, thread_id, is_super, true),
    {
        self.set_flag(chat_id, thread_id, is_super, true);
    }

    /// Disables the bot in a thread, or in the whole chat where no thread is
    /// given. `is_super` is recorded only where the chat has no settings yet.
    pub fn disable(&mut self, chat_id: i64, thread_id: Option<i64>, is_super: bool)
        ensures
            final(self)@ == old(self)@.with_flag(chat_id, thread_id, is_super, false),
    {
        self.set_flag(chat_id, thread_id, is_super, false);
    }

    /// Whether the bot answers in a thread of a chat, or in the chat where no
    /// thread is given. Whether the chat is a supergroup is taken from its
    /// settings, so `_is_super` does not change the answer.
    pub fn is_enabled(&self, chat_id: i64, thread_id: Option<i64>, _is_super: bool) -> (r: bool)
        ensures
            r == self@.is_enabled(chat_id, thread_id),
    {
        resolve_enabled(&self.state_of(chat_id).settings, thread_id)
    }
}

} // verus!
