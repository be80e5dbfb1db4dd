use llama_bot::lm_types::Message;
use llama_bot::storage::memory_storage::MemoryStorage;
use llama_bot::storage::{ChatState, Note, DEFAULT_MAX_HISTORY_LEN, DEFAULT_TEMPERATURE};

fn msg(role: &str, content: &str) -> Message {
    Message { role: role.to_string(), content: content.to_string(), reasoning: None }
}

fn contents(h: &[Message]) -> Vec<String> {
    h.iter().map(|m| m.content.clone()).collect()
}

fn note(note_id: i64, chat_id: i64, text: &str) -> Note {
    Note { note_id, chat_id, user_id: 99, text: text.to_string() }
}

#[test]
fn history_keeps_most_recent_entries() {
    let mut s = MemoryStorage::with_max_history_len(3);
    for i in 0..5 {
        s.set_conversation_context(10, msg("user", &format!("m{}", i)));
    }
    let h = s.get_conversation_context(10);
    assert_eq!(contents(&h), vec!["m2", "m3", "m4"]);
}

#[test]
fn history_below_bound_is_kept_whole() {
    let mut s = MemoryStorage::with_max_history_len(3);
    s.set_conversation_context(10, msg("user", "a"));
    s.set_conversation_context(10, msg("assistant", "b"));
    let h = s.get_conversation_context(10);
    assert_eq!(contents(&h), vec!["a", "b"]);
    assert_eq!(h[1].role, "assistant");
}

#[test]
fn default_bound_is_twenty() {
    let mut s = MemoryStorage::new();
    assert_eq!(s.max_history_len(), DEFAULT_MAX_HISTORY_LEN);
    assert_eq!(DEFAULT_MAX_HISTORY_LEN, 20);
    for i in 0..25 {
        s.set_conversation_context(1, msg("user", &i.to_string()));
    }
    let h = s.get_conversation_context(1);
    assert_eq!(h.len(), 20);
    assert_eq!(h[0].content, "5");
    assert_eq!(h[19].content, "24");
}

#[test]
fn zero_bound_keeps_nothing() {
    let mut s = MemoryStorage::with_max_history_len(0);
    s.set_conversation_context(1, msg("user", "x"));
    assert!(s.get_conversation_context(1).is_empty());
}

#[test]
fn lowering_the_bound_applies_to_reads() {
    let mut s = MemoryStorage::with_max_history_len(5);
    for i in 0..5 {
        s.set_conversation_context(1, msg("user", &i.to_string()));
    }
    s.set_max_history_len(2);
    assert_eq!(contents(&s.get_conversation_context(1)), vec!["3", "4"]);
    s.set_conversation_context(1, msg("user", "5"));
    assert_eq!(contents(&s.get_conversation_context(1)), vec!["4", "5"]);
}

#[test]
fn histories_of_chats_are_separate() {
    let mut s = MemoryStorage::new();
    s.set_conversation_context(1, msg("user", "one"));
    s.set_conversation_context(2, msg("user", "two"));
    assert_eq!(contents(&s.get_conversation_context(1)), vec!["one"]);
    assert_eq!(contents(&s.get_conversation_context(2)), vec!["two"]);
    assert!(s.get_conversation_context(3).is_empty());
}

#[test]
fn clear_empties_history_only() {
    let mut s = MemoryStorage::new();
    s.set_conversation_context(1, msg("user", "one"));
    s.set_system_fingerprint(1, "be brief".to_string());
    s.clear_conversation_context(1);
    assert!(s.get_conversation_context(1).is_empty());
    assert_eq!(s.get_system_fingerprint(1), "be brief");
    s.set_conversation_context(1, msg("user", "two"));
    assert_eq!(contents(&s.get_conversation_context(1)), vec!["two"]);
}

#[test]
fn reasoning_is_kept_in_history() {
    let mut s = MemoryStorage::new();
    let m = Message { role: "assistant".to_string(), content: "hi".to_string(), reasoning: Some("why".to_string()) };
    s.set_conversation_context(4, m);
    let h = s.get_conversation_context(4);
    assert_eq!(h[0].reasoning.as_deref(), Some("why"));
}

#[test]
fn fingerprint_defaults_to_empty() {
    let mut s = MemoryStorage::new();
    assert_eq!(s.get_system_fingerprint(5), "");
    s.set_system_fingerprint(5, "pirate".to_string());
    assert_eq!(s.get_system_fingerprint(5), "pirate");
    s.set_system_fingerprint(5, "poet".to_string());
    assert_eq!(s.get_system_fingerprint(5), "poet");
    assert_eq!(s.get_system_fingerprint(6), "");
}

#[test]
fn temperature_round_trip_and_default() {
    let mut s = MemoryStorage::new();
    assert_eq!(s.get_temperature(8), 70);
    assert_eq!(DEFAULT_TEMPERATURE, 70);
    s.set_temperature(8, 50);
    assert_eq!(s.get_temperature(8), 50);
    assert_eq!(s.get_temperature(9), 70);
}

#[test]
fn note_round_trip() {
    let mut s = MemoryStorage::new();
    s.add_note(note(1000, 3, "buy milk"));
    s.add_note(note(1001, 3, "call mom"));
    let listed = s.list_notes(3);
    assert_eq!(listed.len(), 2);
    assert!(listed.iter().any(|n| n.note_id == 1000 && n.text == "buy milk"));
    s.remove_note(3, 1000);
    let listed = s.list_notes(3);
    assert!(!listed.iter().any(|n| n.note_id == 1000));
    assert_eq!(listed.len(), 1);
    assert_eq!(listed[0].note_id, 1001);
}

#[test]
fn notes_are_listed_in_insertion_order() {
    let mut s = MemoryStorage::new();
    s.add_note(note(30, 3, "c"));
    s.add_note(note(10, 3, "a"));
    s.add_note(note(20, 3, "b"));
    let ids: Vec<i64> = s.list_notes(3).iter().map(|n| n.note_id).collect();
    assert_eq!(ids, vec![30, 10, 20]);
}

#[test]
fn removing_a_missing_note_changes_nothing() {
    let mut s = MemoryStorage::new();
    s.add_note(note(1, 3, "a"));
    s.remove_note(3, 2);
    s.remove_note(4, 1);
    assert_eq!(s.list_notes(3).len(), 1);
    assert!(s.list_notes(4).is_empty());
}

#[test]
fn notes_belong_to_their_chat() {
    let mut s = MemoryStorage::new();
    s.add_note(note(1, 3, "a"));
    s.add_note(note(1, 4, "b"));
    s.remove_note(3, 1);
    assert!(s.list_notes(3).is_empty());
    assert_eq!(s.list_notes(4)[0].text, "b");
}

#[test]
fn erase_empties_notes() {
    let mut s = MemoryStorage::new();
    s.add_note(note(1, 3, "a"));
    s.add_note(note(2, 3, "b"));
    s.erase_notes(3);
    assert!(s.list_notes(3).is_empty());
    s.erase_notes(7);
    assert!(s.list_notes(7).is_empty());
}

#[test]
fn unseen_chat_is_enabled() {
    let s = MemoryStorage::new();
    assert!(s.is_enabled(42, None, false));
    assert!(s.is_enabled(42, Some(3), true));
}

#[test]
fn supergroup_thread_disable() {
    let mut s = MemoryStorage::new();
    s.disable(-100, Some(7), true);
    assert!(!s.is_enabled(-100, Some(7), true));
    assert!(s.is_enabled(-100, Some(8), true));
}

#[test]
fn chat_level_disable_and_enable() {
    let mut s = MemoryStorage::new();
    s.disable(5, None, false);
    assert!(!s.is_enabled(5, None, false));
    assert!(!s.is_enabled(5, Some(1), false));
    s.enable(5, None, false);
    assert!(s.is_enabled(5, None, false));
}

#[test]
fn thread_flags_ignored_outside_supergroups() {
    let mut s = MemoryStorage::new();
    s.enable(6, None, false);
    s.disable(6, Some(2), false);
    assert!(s.is_enabled(6, Some(2), false));
}

#[test]
fn thread_enable_after_disable() {
    let mut s = MemoryStorage::new();
    s.disable(-7, Some(1), true);
    s.enable(-7, Some(1), true);
    assert!(s.is_enabled(-7, Some(1), true));
}

#[test]
fn first_creation_records_supergroup_kind() {
    let mut s = MemoryStorage::new();
    s.enable(-9, None, false);
    s.disable(-9, Some(4), true);
    assert!(s.is_enabled(-9, Some(4), true));
}

#[test]
fn fresh_chat_state() {
    let c = ChatState::new();
    assert!(c.history.is_empty());
    assert_eq!(c.fingerprint, "");
    assert_eq!(c.temperature, 70);
    assert!(c.notes.is_empty());
    assert!(c.settings.is_none());
}

#[test]
fn note_summary_line() {
    let n = note(42, 1, "hello");
    assert_eq!(n.to_string(), "Note #42: hello...\n");
}

#[test]
fn note_summary_cuts_long_text() {
    let n = note(-5, 1, "abcdefghijklmnopqrstuvwxyz0123456789");
    assert_eq!(n.to_string(), "Note #-5: abcdefghijklmnopqrstuvwxyz0123...\n");
}

#[test]
fn note_summary_counts_characters() {
    let n = note(1700000000000, 1, "привет мир, это очень длинная заметка");
    assert_eq!(n.to_string(), "Note #1700000000000: привет мир, это очень длинная ...\n");
}
