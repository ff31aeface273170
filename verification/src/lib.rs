//! Core logic of a message-driven chat bot backend: role-based command
//! authorization, the user account lifecycle, bounded media-list management,
//! and the multi-step profile-editing session protocol.
//!
//! The library is pure decision logic: it consumes one inbound message
//! together with the state that the caller resolved from its stores, and
//! produces one reply and the store effects to apply. All I/O (the relational
//! store, the key-value session store, the blob store, the messaging gateway)
//! stays with the caller.

pub mod clock;
pub mod config;
pub mod dispatch;
pub mod errors;
pub mod media;
pub mod rbac;
pub mod reply;
pub mod session;
pub mod telegram;
pub mod text;
pub mod user;
