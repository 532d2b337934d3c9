//! A small verified core for a forwarded-message date bot.
//!
//! When a user forwards a message into a chat, the bot determines the
//! original send time of the forwarded message and replies with a
//! human-readable date, threaded to the originating message. This crate
//! holds the decision logic: extracting the relevant fields from an
//! arbitrary update document, formatting a Unix timestamp as a date
//! string, and assembling the outbound reply payload. The HTTP plumbing
//! around it lives outside the library.

pub mod datefmt;
pub mod json;
pub mod reply;
pub mod update;
