//! Messages exchanged with the completion service.

use vstd::prelude::*;
use vstd::string::*;

use crate::storage::{Note, NoteModel};

verus! {

/// A message as sent to, or received from, the completion service.
#[derive(Clone, Debug)]
pub struct Message {
    /// Role of the sender: `system`, `user` or `assistant`.
    pub role: String,
    /// What the message says.
    pub content: String,
    /// Reasoning that came with it, if any.
    pub reasoning: Option<String>,
}

/// The mathematical value of a [`Message`].
pub struct MessageModel {
    pub role: Seq<char>,
    pub content: Seq<char>,
    pub reasoning: Option<Seq<char>>,
}

pub open spec fn text_option_view(o: Option<String>) -> Option<Seq<char>> {
    match o {
        Some(s) => Some(s@),
        None => None,
    }
}

impl View for Message {
    type V = MessageModel;

    open spec fn view(&self) -> MessageModel {
        MessageModel {
            role: self.role@,
            content: self.content@,
            reasoning: text_option_view(self.reasoning),
        }
    }
}

/// The values of a sequence of messages.
pub open spec fn messages_view(ms: Seq<Message>) -> Seq<MessageModel> {
    ms.map_values(|m: Message| m@)
}

/// The message that stands for a note in a completion request: the note's
/// text, sent as the user's.
pub open spec fn note_message(n: NoteModel) -> MessageModel {
    MessageModel { role: "user"@, content: n.text, reasoning: None }
}

/// The system message that carries a chat's persona.
pub open spec fn system_message(fingerprint: Seq<char>) -> MessageModel {
    MessageModel { role: "system"@, content: fingerprint, reasoning: None }
}

impl Message {
    /// The message that stands for a note in a completion request.
    pub fn from_note(note: &Note) -> (r: Message)
        ensures
            r@ == note_message(note@),
    {
        Message { role: String::from_str("user"), content: note.text.clone(), reasoning: None }
    }

    /// The system message that carries a chat's persona.
    pub fn system(fingerprint: String) -> (r: Message)
        ensures
            r@ == system_message(fingerprint@),
    {
        Message { role: String::from_str("system"), content: fingerprint, reasoning: None }
    }
}

/// A response of the completion service.
pub struct Answer {
    /// Unique response identifier.
    pub id: String,
    /// Object type identifier.
    pub object: String,
    /// Unix timestamp of creation.
    pub created: u32,
    /// Model that generated the response.
    pub model: String,
    /// Generated choices.
    pub choices: Vec<Choice>,
    /// Token usage statistics.
    pub usage: Usage,
    /// The model's system fingerprint.
    pub system_fingerprint: String,
}

/// One generated choice of a response.
pub struct Choice {
    /// Position of the choice in the response.
    pub index: u32,
    /// Log probabilities, where requested.
    pub logprobs: Option<String>,
    /// Why generation stopped.
    pub finish_reason: String,
    /// The generated message.
    pub message: Message,
}

/// Token usage statistics of a response.
pub struct Usage {
    /// Tokens in the prompt.
    pub prompt_tokens: u32,
    /// Tokens in the completion.
    pub completion_tokens: u32,
    /// Tokens in all.
    pub total_tokens: u32,
}

impl Answer {
    /// The message of the first choice, which is the reply; none where the
    /// response holds no choice.
    pub fn first_message(&self) -> (r: Option<&Message>)
        ensures
            r is Some <==> self.choices@.len() > 0,
            r matches Some(m) ==> *m == self.choices@[0].message,
    {
        if self.choices.len() > 0 {
            Some(&self.choices[0].message)
        } else {
            None
        }
    }
}

} // verus!
