//! Outbound transactional email: configuration resolution, template
//! envelopes with variable substitution, and batch-send accounting.
//!
//! The library resolves an environment snapshot into a validated SMTP
//! configuration, builds message envelopes, and decides how a batch of
//! messages is delivered. The network transport itself lives outside the
//! library; callers drive the [`sender::SendBatch`] state machine and hand
//! each transport outcome back to it.

pub mod config;
pub mod mailbox;
pub mod sender;
pub mod strutil;
pub mod template;
pub mod tls;
