//! A relay between a chat and a conversational backend, for one question at
//! a time.
//!
//! Each invocation opens one encrypted request ([`bootstrap`]), finds or
//! creates the conversation's session ([`session`], [`relay`]), keeps the
//! chat informed while the backend is at work ([`heartbeat`]), formats the
//! backend's answer for the chat ([`markup`], [`message`], [`delivery`]),
//! and stores the session under a key made of the message that carried the
//! answer, so that a reply to that message finds it.
//!
//! The library decides and computes; reading, sending and waiting are the
//! caller's.

pub mod bootstrap;
pub mod delivery;
pub mod heartbeat;
pub mod markup;
pub mod message;
pub mod numeral;
pub mod relay;
pub mod session;
pub mod text;

pub use crate::markup::{escape, Answer, MarkupMode};
pub use crate::message::{Request, Response};
