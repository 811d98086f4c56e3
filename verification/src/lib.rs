//! A language-server multiplexer: one editor client talks to several
//! language servers at once. This library holds the decisions of the
//! multiplexer: framing and classifying protocol messages, merging the
//! JSON results of several servers, tracking which server owes which
//! reply, routing requests by capability, and collecting diagnostics.
//! The program around it performs the reads, writes and task spawning.

pub mod error;
pub mod text;
pub mod json;
pub mod codec;
pub mod cli;
pub mod msg;
pub mod header;
pub mod capability;
pub mod tracker;
pub mod diagnostic;
pub mod lsp;
pub mod client;
pub mod manager;
