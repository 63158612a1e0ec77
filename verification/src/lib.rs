//! Control core of a conversational agent that drives shell-command execution
//! and file editing from natural-language chat.
//!
//! The library holds the parts with real semantics: command risk
//! classification with a human-approval gate, the approval state machine,
//! the structured tool-invocation protocol, and the context-window manager
//! that keeps a conversation within a token budget.  Transport, audio and
//! storage plumbing live outside the library and hand it plain values.

pub mod approval;
pub mod callbacks;
pub mod commands;
pub mod config;
pub mod context;
pub mod executor;
pub mod identity;
pub mod llm;
pub mod text;
pub mod tools;
pub mod tts;
