//! Relays JSON notifications to chat webhooks.
//!
//! A request names a path and carries a JSON body. The routing table, read
//! from a configuration text, says which webhook the path stands for
//! ([`routing`]); the body is read as an event ([`event`]) and turned into
//! the message that goes out ([`payload`]). [`relay`] puts the two together
//! and says what to do for a request and what to answer; it sends nothing
//! itself. [`port`] reads the port to listen on.
//!
//! JSON is parsed, held and written by `serde_json`, and the configuration
//! is percent-decoded by `urlencoding`. What this crate relies on of the
//! two is stated, without proof, in [`json`] and [`percent`]; everything
//! else is proved.

pub mod event;
pub mod json;
pub mod members;
pub mod payload;
pub mod percent;
pub mod port;
pub mod relay;
pub mod routing;
pub mod text;
