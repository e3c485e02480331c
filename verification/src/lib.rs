//! Decision logic of a chat bot that recognises short-video links, rewrites
//! them to an embeddable mirror and relays resolved media back into the chat.

pub mod batch;
pub mod commands;
pub mod config;
pub mod database;
pub mod pattern;
pub mod relay;
pub mod text;
pub mod tiklydown;
pub mod trace;
pub mod triage;
