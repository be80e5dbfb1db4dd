//! Per-chat and per-thread enablement, with supergroup semantics.

use std::collections::HashMap;

use vstd::prelude::*;

use crate::storage::{ChatSettings, SettingsModel, settings_view};

verus! {

/// Settings after the flag of `thread` (or of the whole chat, where no thread
/// is given) is set to `value`. Absent settings are created first, recording
/// `is_super` and taking `value` as the chat-level flag.
pub open spec fn settings_after(
    old: Option<SettingsModel>,
    thread: Option<i64>,
    is_super: bool,
    value: bool,
) -> SettingsModel {
    match old {
        Some(s) => match thread {
            Some(t) => SettingsModel { threads: s.threads.insert(t, value), ..s },
            None => SettingsModel { enabled: value, ..s },
        },
        None => SettingsModel {
            is_supergroup: is_super,
            threads: match thread {
                Some(t) => Map::empty().insert(t, value),
                None => Map::empty(),
            },
            enabled: value,
        },
    }
}

/// Whether the bot answers in `thread` of a chat with these settings: a chat
/// without settings is enabled; outside supergroups, or without a thread, the
/// chat-level flag decides; otherwise the thread's flag, enabled where unset.
pub open spec fn resolved(settings: Option<SettingsModel>, thread: Option<i64>) -> bool {
    match settings {
        None => true,
        Some(s) => match thread {
            Some(t) if s.is_supergroup => if s.threads.contains_key(t) {
                s.threads[t]
            } else {
                true
            },
            _ => s.enabled,
        },
    }
}

/// Sets the flag of `thread_id`, or of the whole chat, creating the settings
/// where there are none.
pub fn apply_flag(
    settings: Option<ChatSettings>,
    thread_id: Option<i64>,
    is_super: bool,
    value: bool,
) -> (r: ChatSettings)
    ensures
        r@ == settings_after(settings_view(settings), thread_id, is_super, value),
{
    let mut s = match settings {
        Some(s) => s,
        None => ChatSettings { is_supergroup: is_super, threads: HashMap::new(), enabled: value },
    };
    match thread_id {
        Some(t) => {
            s.threads.insert(t, value);
        },
        None => {
            s.enabled = value;
        },
    }
    assert(s@.threads =~= settings_after(settings_view(settings), thread_id, is_super, value).threads);
    s
}

/// Whether the bot answers in `thread_id` of a chat with these settings.
pub fn resolve_enabled(settings: &Option<ChatSettings>, thread_id: Option<i64>) -> (r: bool)
    ensures
        r == resolved(settings_view(*settings), thread_id),
{
    match settings {
        None => true,
        Some(s) => match thread_id {
            Some(t) => if s.is_supergroup {
                match s.threads.get(&t) {
                    Some(flag) => *flag,
                    None => true,
                }
            } else {
                s.enabled
            },
            None => s.enabled,
        },
    }
}

} // verus!
