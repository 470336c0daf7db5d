//! A value tagged with the wire format it travels in (a self-describing text
//! encoding or a compact binary one), the per-type rules by which identifiers,
//! language tags and byte blobs take a different shape in each format, and the
//! negotiation that picks the format of a request.
pub mod body;
pub mod codec;
pub mod conf;
pub mod domain;
pub mod error;
pub mod negotiate;
pub mod object;
pub mod review;
pub mod wire;
