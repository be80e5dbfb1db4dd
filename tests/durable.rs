use llama_bot::lm_types::Message;
use llama_bot::storage::durable::{chronological, history_row_limit, read_or_default};
use llama_bot::storage::memory_storage::MemoryStorage;

fn msg(content: &str) -> Message {
    Message { role: "user".to_string(), content: content.to_string(), reasoning: None }
}

fn contents(h: &[Message]) -> Vec<String> {
    h.iter().map(|m| m.content.clone()).collect()
}

#[test]
fn row_limit_caps_the_counter() {
    assert_eq!(history_row_limit(5, 20), 5);
    assert_eq!(history_row_limit(25, 20), 20);
    assert_eq!(history_row_limit(20, 20), 20);
    assert_eq!(history_row_limit(0, 20), 0);
    assert_eq!(history_row_limit(-3, 20), 0);
    assert_eq!(history_row_limit(i64::MAX, usize::MAX), i64::MAX);
}

#[test]
fn rows_are_put_in_chronological_order() {
    let rows = vec![msg("c"), msg("b"), msg("a")];
    assert_eq!(contents(&chronological(rows)), vec!["a", "b", "c"]);
    assert!(chronological(Vec::new()).is_empty());
}

#[test]
fn failed_reads_degrade_to_default() {
    assert_eq!(read_or_default(None, 70u16), 70);
    assert_eq!(read_or_default(Some(None), 70u16), 70);
    assert_eq!(read_or_default(Some(Some(50u16)), 70u16), 50);
    assert_eq!(read_or_default(None, String::new()), "");
    assert_eq!(read_or_default(Some(Some("pirate".to_string())), String::new()), "pirate");
}

/// A log of rows and a counter, as the durable backend keeps them.
struct Log {
    rows: Vec<Message>,
    counter: i64,
}

impl Log {
    fn append(&mut self, m: Message) {
        self.rows.push(m);
        self.counter += 1;
    }

    fn clear(&mut self) {
        self.counter = 0;
    }

    fn read(&self, max: usize) -> Vec<Message> {
        let limit = history_row_limit(self.counter, max) as usize;
        let newest_first: Vec<Message> = self.rows.iter().rev().take(limit).cloned().collect();
        chronological(newest_first)
    }
}

#[test]
fn durable_and_volatile_histories_agree() {
    let max = 3;
    let mut log = Log { rows: vec![msg("old1"), msg("old2")], counter: 0 };
    let mut mem = MemoryStorage::with_max_history_len(max);
    for i in 0..5 {
        log.append(msg(&i.to_string()));
        mem.set_conversation_context(1, msg(&i.to_string()));
        assert_eq!(contents(&log.read(max)), contents(&mem.get_conversation_context(1)));
    }
    log.clear();
    mem.clear_conversation_context(1);
    assert_eq!(contents(&log.read(max)), contents(&mem.get_conversation_context(1)));
    log.append(msg("x"));
    mem.set_conversation_context(1, msg("x"));
    assert_eq!(contents(&log.read(max)), vec!["x"]);
    assert_eq!(contents(&mem.get_conversation_context(1)), vec!["x"]);
}
