//! Conversation state for a chat assistant: a per-chat store of bounded
//! history, persona, sampling temperature, notes and enablement flags, and an
//! admission controller that keeps at most one completion request in flight
//! per chat.

pub mod busy;
pub mod command;
pub mod lm_types;
pub mod reply;
pub mod storage;
