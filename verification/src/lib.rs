//! Core of a terminal chat client: the navigation state machine, the modal
//! text-editing engine, the emoji-completion sub-engine, the permission
//! evaluator and the unread-message tracker, with their contracts.

pub mod app;
pub mod emoji;
pub mod lists;
pub mod model;
pub mod perm;
pub mod sync;
pub mod text;
pub mod vim;
