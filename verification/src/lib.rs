//! An interactive chat client's core: an append-only conversation transcript
//! with its prompt-template serializer, the decision state machine behind the
//! raw-mode terminal line reader, and the small pure steps of the session
//! loop (model selection, reply-fragment assembly).

pub mod config;
pub mod dialog;
pub mod reader;
pub mod session;
