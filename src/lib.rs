//! Core of a chat-bot framework over a long-poll messaging API: message
//! and request types, handler actions, per-chat state, the decisions of the
//! poll loop, and an in-memory server for driving the loop in tests.

pub mod api;
pub mod send_photo;
pub mod chat;
pub mod text;
pub mod store;
pub mod chain;
pub mod router;
pub mod fake;
pub mod bot;
