//! Decisions of a small mail service: sending a message, relaying signed
//! webhooks, and a two-step subscription that a signed click confirms.

pub mod confirm;
pub mod event;
pub mod json;
pub mod message;
pub mod reply;
pub mod send;
pub mod settings;
pub mod signature;
pub mod subscribe;
pub mod webhook;
