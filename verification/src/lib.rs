//! Timeline reconciliation for one room of a federated chat protocol.
//!
//! A room session merges the live event stream, fetched pages of history and
//! the user's own outgoing messages into one line-oriented timeline, keeps at
//! most one history request in flight, and applies edits and redactions to
//! lines that are already on display.

pub mod lock;
pub mod pagination;
pub mod events;
pub mod utils;
pub mod connection;
pub mod input;
pub mod line;
pub mod render;
pub mod buffer;
pub mod redaction;
pub mod edit;
pub mod transaction;
pub mod queue;
pub mod echo;
pub mod state;
pub mod room;
pub mod laws;
