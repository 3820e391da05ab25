//! Data model and request-handling rules of a dictionary-hosting web service:
//! users own dictionaries, dictionaries hold entries, entries carry key/value fields.
//! Database access, HTTP plumbing and scripting live in the application around this library.

pub mod api;
pub mod config;
pub mod dictionary;
pub mod entry;
pub mod error;
pub mod ident;
pub mod module;
pub mod time;
pub mod user;

pub use ident::Nanoid;
