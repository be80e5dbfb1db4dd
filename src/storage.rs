//! The per-chat conversation state and the policies that every backend shares.

use std::collections::HashMap;

use vstd::prelude::*;
use vstd::string::*;

use crate::lm_types::{Message, MessageModel, messages_view};

pub mod chat_table;
pub mod durable;
pub mod enablement;
pub mod factory;
pub mod history;
pub mod laws;
pub mod memory_storage;
pub mod notes;

verus! {

/// Temperature, in hundredths, of a chat that never set one.
pub const DEFAULT_TEMPERATURE: u16 = 70;

/// Largest temperature, in hundredths, that a chat may use.
pub const MAX_TEMPERATURE: u16 = 200;

/// Number of history entries kept per chat unless configured otherwise.
pub const DEFAULT_MAX_HISTORY_LEN: usize = 20;

/// A user note stored for a chat.
///
/// Notes are text snippets associated with specific users in specific chats.
/// The id is chosen by the caller and is assumed unique within its chat.
#[derive(Clone, Debug)]
pub struct Note {
    /// Identifier of the note within its chat.
    pub note_id: i64,
    /// Chat the note belongs to.
    pub chat_id: i64,
    /// User who wrote the note.
    pub user_id: u64,
    /// Content of the note.
    pub text: String,
}

/// The digit characters, by value.
pub open spec fn digit_chars() -> Seq<char> {
    seq!['0', '1', '2', '3', '4', '5', '6', '7', '8', '9']
}

/// The decimal digits of `n`, most significant first.
pub open spec fn decimal_digits(n: nat) -> Seq<char>
    decreases n,
{
    if n < 10 {
        seq![digit_chars()[n as int]]
    } else {
        decimal_digits(n / 10).push(digit_chars()[(n % 10) as int])
    }
}

/// The decimal notation of `n`, with a leading `-` where it is negative.
pub open spec fn decimal(n: int) -> Seq<char> {
    if n < 0 {
        seq!['-'] + decimal_digits((-n) as nat)
    } else {
        decimal_digits(n as nat)
    }
}

/// Relies on the standard `Display` of `i64` (through `ToString`): it writes
/// the number in decimal, with a leading `-` where it is negative.
#[verifier::external_body]
fn decimal_text(n: i64) -> (r: String)
    ensures
        r@ == decimal(n as int),
{
    n.to_string()
}

/// Number of characters of a note that its one-line summary shows.
pub const NOTE_PREVIEW_CHARS: usize = 30;

/// The one-line summary of a note: its id and the start of its text.
pub open spec fn note_line(n: NoteModel) -> Seq<char> {
    let shown: int = if n.text.len() <= NOTE_PREVIEW_CHARS { n.text.len() as int } else { NOTE_PREVIEW_CHARS as int };
    "Note #"@ + decimal(n.note_id as int) + ": "@ + n.text.take(shown) + "...\n"@
}

impl Note {
    /// The one-line summary of the note: `Note #<id>: <first characters>...`
    /// and a line break.
    pub fn to_string(&self) -> (r: String)
        ensures
            r@ == note_line(self@),
    {
        let len = self.text.as_str().unicode_len();
        let shown = if len <= NOTE_PREVIEW_CHARS { len } else { NOTE_PREVIEW_CHARS };
        let preview = self.text.as_str().substring_char(0, shown);
        let mut line = String::from_str("Note #");
        let id = decimal_text(self.note_id);
        line.append(id.as_str());
        line.append(": ");
        line.append(preview);
        line.append("...\n");
        line
    }
}

/// The mathematical value of a [`Note`].
pub struct NoteModel {
    pub note_id: i64,
    pub chat_id: i64,
    pub user_id: u64,
    pub text: Seq<char>,
}

impl View for Note {
    type V = NoteModel;

    open spec fn view(&self) -> NoteModel {
        NoteModel {
            note_id: self.note_id,
            chat_id: self.chat_id,
            user_id: self.user_id,
            text: self.text@,
        }
    }
}

/// The values of a sequence of notes.
pub open spec fn notes_view(ns: Seq<Note>) -> Seq<NoteModel> {
    ns.map_values(|n: Note| n@)
}

/// Whether the bot answers in a chat, and in which of its threads.
#[derive(Clone, Debug)]
pub struct ChatSettings {
    /// Whether the chat is a supergroup; recorded when the settings are created.
    pub is_supergroup: bool,
    /// Per-thread flags: `true` enabled, `false` disabled. Consulted only in
    /// supergroups.
    pub threads: HashMap<i64, bool>,
    /// Chat-level flag.
    pub enabled: bool,
}

/// The mathematical value of [`ChatSettings`].
pub struct SettingsModel {
    pub is_supergroup: bool,
    pub threads: Map<i64, bool>,
    pub enabled: bool,
}

impl View for ChatSettings {
    type V = SettingsModel;

    open spec fn view(&self) -> SettingsModel {
        SettingsModel {
            is_supergroup: self.is_supergroup,
            threads: self.threads@,
            enabled: self.enabled,
        }
    }
}

/// The value of settings that may not exist yet.
pub open spec fn settings_view(s: Option<ChatSettings>) -> Option<SettingsModel> {
    match s {
        Some(s) => Some(s@),
        None => None,
    }
}

/// Everything stored for one chat.
#[derive(Clone, Debug)]
pub struct ChatState {
    /// Conversation history, oldest first.
    pub history: Vec<Message>,
    /// Persona directive sent as the system message.
    pub fingerprint: String,
    /// Sampling temperature, in hundredths.
    pub temperature: u16,
    /// Notes, in the order they were added.
    pub notes: Vec<Note>,
    /// Enablement settings, created on the first `enable` or `disable`.
    pub settings: Option<ChatSettings>,
}

/// The mathematical value of a [`ChatState`].
pub struct ChatModel {
    pub history: Seq<MessageModel>,
    pub fingerprint: Seq<char>,
    pub temperature: u16,
    pub notes: Seq<NoteModel>,
    pub settings: Option<SettingsModel>,
}

impl View for ChatState {
    type V = ChatModel;

    open spec fn view(&self) -> ChatModel {
        ChatModel {
            history: messages_view(self.history@),
            fingerprint: self.fingerprint@,
            temperature: self.temperature,
            notes: notes_view(self.notes@),
            settings: settings_view(self.settings),
        }
    }
}

/// The state of a chat that nothing has been stored for.
pub open spec fn fresh_chat() -> ChatModel {
    ChatModel {
        history: Seq::empty(),
        fingerprint: Seq::empty(),
        temperature: DEFAULT_TEMPERATURE,
        notes: Seq::empty(),
        settings: None,
    }
}

impl ChatState {
    /// The state of a chat that nothing has been stored for.
    pub fn new() -> (r: ChatState)
        ensures
            r@ == fresh_chat(),
    {
        let r = ChatState {
            history: Vec::new(),
            fingerprint: String::new(),
            temperature: DEFAULT_TEMPERATURE,
            notes: Vec::new(),
            settings: None,
        };
        assert(r@.history =~= Seq::<MessageModel>::empty());
        assert(r@.notes =~= Seq::<NoteModel>::empty());
        r
    }
}

} // verus!
