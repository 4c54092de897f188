//! Cache synchronization for a conversational agent UI.
//!
//! A dispatch engine owns the authoritative transcript of each agent and is
//! busy for long stretches while a completion streams in.  This library keeps
//! a cheap, always-readable snapshot of every transcript and an ordered queue
//! of pending edits, so the UI can read and submit edits without ever waiting
//! on the engine.  Listener hooks reconcile the two sides: pending edits are
//! applied to the authoritative transcripts in submission order, and every
//! authoritative update overwrites the snapshot.

pub mod edits;
pub mod handler;
pub mod json;
pub mod laws;
pub mod listener;
pub mod markdown_block;
pub mod queue;
pub mod store;
pub mod text;
pub mod transcript;
pub mod views;
pub mod ws;
