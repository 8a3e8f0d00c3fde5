//! Reading and writing file-scoped metadata stored as extended attributes
//! under the XDG user-metadata key names, plus the de-facto tagging key.
//!
//! The heart of the crate is the mapping between a structured in-memory
//! record ([`Attributes`]) and a flat namespace of key/value byte-string
//! attributes, including the comma-joined encoding of the tag list.

pub mod codec;
pub mod record;
pub mod store;

pub use codec::csv;
pub use codec::join_tags;
pub use record::Attributes;
pub use store::StoreError;
