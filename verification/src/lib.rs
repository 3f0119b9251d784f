//! Schema layer of a macro-keypad plugin protocol.
//!
//! The crate models three independent groups of wire data: the plugin
//! manifest descriptor, the discriminated message unions exchanged with a
//! running plugin, and the parallel unions exchanged with its configuration
//! UI (the property inspector). Every operation is a pure transformation
//! between a structured [`json::Json`] value and a typed value; the
//! transport that carries the frames is outside this crate.

pub mod codec;
pub mod json;
pub mod manifest;
pub mod messages;
pub mod property_inspector;
pub mod runner;

pub use manifest::return_true;
pub use messages::{Message, MessageOut};
