//! Diagnostic text for decoded TLS records, handshake messages and extensions.
//!
//! Every renderer is a total function from a decoded structure to a `String`,
//! and its contract gives the exact text as a sequence of characters. Codes
//! are resolved against tables of names that the caller supplies; a code that
//! no table knows, a name that is not UTF-8 and an extension of unknown kind
//! each have their own text, so that nothing that was decoded is lost.
//!
//! - [`text`]: digits, numbers, lists, and what it means for a text to occur
//!   in another.
//! - [`hex`]: scalars and byte sequences in hexadecimal.
//! - [`registry`]: the tables of names.
//! - [`resolve`]: codes resolved against the tables.
//! - [`strings`]: text fields and quoted entries.
//! - [`messages`], [`alert`], [`dh`], [`sign_hash`], [`extensions`]: the
//!   structures and their texts.

pub mod alert;
pub mod dh;
pub mod extensions;
pub mod hex;
pub mod messages;
pub mod registry;
pub mod resolve;
pub mod sign_hash;
pub mod strings;
pub mod text;
