//! Core of a chat-client bridge: live-view diff queues, the account state
//! directory layout with its unresolved-identity table, the login state
//! machine, and read-only room and timeline projections.

pub mod auth;
pub mod diff;
pub mod identity;
pub mod options;
pub mod queue;
pub mod room;
pub mod timeline;
pub mod tombstone;
