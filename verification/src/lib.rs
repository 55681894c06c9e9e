//! Message-bus serialization envelope and topic identity.
//!
//! The envelope prepends a one-byte magic header to the UTF-8 JSON text of a
//! dynamic JSON tree; an object mapper applies recursive null-elision and an
//! optional adjacent type tag before the text is produced. A topic identity
//! model composes canonical dotted topic names and carries per-topic broker
//! configuration.

use vstd::prelude::*;

pub mod json;
pub mod jsonio;
pub mod mapper;
pub mod deserializer;
pub mod serializer;
pub mod topic;
pub mod app_comm;
pub mod topic_impl;
pub mod application;
pub mod ops;
pub mod source;
pub mod signature;
pub mod strutil;
pub mod strmap;
pub mod url_parse;
pub mod uuid_v5;
pub mod date_format;

verus! {

/// The fixed first octet of every envelope; part of the wire contract.
pub const MONKY_MAGIC_BYTE: u8 = 0;

} // verus!
