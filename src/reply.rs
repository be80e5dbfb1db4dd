//! Around one completion round trip: the messages of the request, and the
//! reply as it is shown to the user.

use vstd::prelude::*;
use vstd::string::*;

use crate::lm_types::{Message, MessageModel, messages_view, note_message, system_message};
use crate::storage::{Note, NoteModel, notes_view};

verus! {

/// Largest number of characters in one outgoing chat message.
pub const CHUNK_SIZE: usize = 4095;

/// Pattern of the reasoning blocks that are cut from a reply before it is
/// shown, unless the configuration asks to show them.
pub const THINK_PATTERN: &'static str = "(?s)<think>.*?</think>";

/// The messages of a completion request: the persona as the system message,
/// then each note as a user message, then the history.
pub open spec fn request(
    fingerprint: Seq<char>,
    notes: Seq<NoteModel>,
    history: Seq<MessageModel>,
) -> Seq<MessageModel> {
    seq![system_message(fingerprint)] + notes.map_values(|n| note_message(n)) + history
}

/// Builds the messages of a completion request.
pub fn request_messages(
    fingerprint: String,
    notes: &Vec<Note>,
    history: Vec<Message>,
) -> (r: Vec<Message>)
    ensures
        messages_view(r@) == request(fingerprint@, notes_view(notes@), messages_view(history@)),
{
    let ghost fp = fingerprint@;
    let mut out: Vec<Message> = Vec::new();
    out.push(Message::system(fingerprint));
    let ghost ns = notes_view(notes@);
    let mut i: usize = 0;
    while i < notes.len()
        invariant
            ns == notes_view(notes@),
            0 <= i <= notes@.len(),
            messages_view(out@) == seq![system_message(fp)] + ns.take(i as int).map_values(
                |n| note_message(n),
            ),
        decreases notes@.len() - i,
    {
        let ghost before = out@;
        out.push(Message::from_note(&notes[i]));
        assert(messages_view(out@) =~= messages_view(before).push(note_message(ns[i as int])));
        assert(ns.take(i as int + 1).map_values(|n| note_message(n)) =~= ns.take(i as int).map_values(
            |n| note_message(n),
        ).push(note_message(ns[i as int])));
        i = i + 1;
    }
    assert(ns.take(i as int) =~= ns);
    let ghost before = out@;
    let mut history = history;
    let ghost hist = history@;
    out.append(&mut history);
    assert(messages_view(out@) =~= messages_view(before) + messages_view(hist));
    out
}

/// What erasing every match of a pattern from a text leaves.
pub uninterp spec fn regex_erased(pattern: Seq<char>, text: Seq<char>) -> Seq<char>;

/// Relies on `regex::Regex::new` and `regex::Regex::replace_all` with an
/// empty replacement: where the pattern compiles, the result is the text with
/// every match removed, which depends on the pattern and the text alone.
#[verifier::external_body]
fn erase_matches(pattern: &str, text: &str) -> (r: Option<String>)
    ensures
        r matches Some(t) ==> t@ == regex_erased(pattern@, text@),
{
    match regex::Regex::new(pattern) {
        Ok(re) => Some(re.replace_all(text, "").into_owned()),
        Err(_) => None,
    }
}

/// The reply as shown to the user: with its reasoning blocks cut out, unless
/// `show_reasoning`. Where the pattern could not be compiled the reply is
/// shown whole.
pub fn visible_reply(content: &str, show_reasoning: bool) -> (r: String)
    ensures
        show_reasoning ==> r@ == content@,
        !show_reasoning ==> (r@ == regex_erased(THINK_PATTERN@, content@) || r@ == content@),
{
    if show_reasoning {
        String::from_str(content)
    } else {
        match erase_matches(THINK_PATTERN, content) {
            Some(t) => t,
            None => String::from_str(content),
        }
    }
}

/// `s` cut into pieces of `size` characters, the last one possibly shorter;
/// nothing for an empty `s`.
pub open spec fn chunks_of(s: Seq<char>, size: nat) -> Seq<Seq<char>>
    decreases s.len(),
{
    if s.len() == 0 || size == 0 {
        Seq::empty()
    } else if s.len() <= size {
        seq![s]
    } else {
        seq![s.take(size as int)] + chunks_of(s.skip(size as int), size)
    }
}

/// The values of a sequence of strings.
pub open spec fn strings_view(v: Seq<String>) -> Seq<Seq<char>> {
    v.map_values(|s: String| s@)
}

/// Cuts a text into messages of at most `size` characters each.
pub fn split_chunks(text: &str, size: usize) -> (r: Vec<String>)
    requires
        size > 0,
    ensures
        strings_view(r@) == chunks_of(text@, size as nat),
{
    let n = text.unicode_len();
    let mut out: Vec<String> = Vec::new();
    let mut i: usize = 0;
    assert(text@.skip(0) =~= text@);
    while i < n
        invariant
            n == text@.len(),
            size > 0,
            i <= n,
            chunks_of(text@, size as nat) == strings_view(out@) + chunks_of(text@.skip(i as int), size as nat),
        decreases n - i,
    {
        let rest = n - i;
        let end = if rest <= size { n } else { i + size };
        let piece = text.substring_char(i, end);
        let ghost before = out@;
        let ghost tail = text@.skip(i as int);
        out.push(String::from_str(piece));
        assert(strings_view(out@) =~= strings_view(before).push(piece@));
        if rest <= size {
            assert(piece@ =~= tail);
            assert(text@.skip(end as int) =~= Seq::<char>::empty());
            assert(chunks_of(tail, size as nat) == seq![tail]);
        } else {
            assert(piece@ =~= tail.take(size as int));
            assert(tail.skip(size as int) =~= text@.skip(end as int));
        }
        assert(strings_view(before) + chunks_of(tail, size as nat) =~= strings_view(out@) + chunks_of(
            text@.skip(end as int),
            size as nat,
        ));
        i = end;
    }
    assert(text@.skip(n as int) =~= Seq::<char>::empty());
    assert(strings_view(out@) + Seq::<Seq<char>>::empty() =~= strings_view(out@));
    out
}

} // verus!
