//! Core of a session-lock screen locker: the lock orchestrator state machine,
//! the secret-input accumulator, the authentication gate around the system
//! credential backend, the output registry, and the software renderer that
//! produces the pixels each lock surface shows.

pub mod config;
pub mod input;
pub mod lock;
pub mod media;
pub mod output;
pub mod render;
