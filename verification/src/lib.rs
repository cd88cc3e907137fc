//! Normalisation of outgoing request descriptors.
//!
//! A caller hands in either a URL or an existing request handle, together
//! with optional overrides.  The crate turns that intent into one canonical
//! descriptor and a header list that is kept in step with it, or rejects the
//! combination with a validation error.

pub mod host;
pub mod transport;
pub mod bridge;
pub mod header_map;
pub mod byte_string;
pub mod error;
pub mod method;
pub mod web_url;
pub mod field;
pub mod guard;
pub mod headers;
pub mod body;
pub mod descriptor;
pub mod init;
pub mod normalize;
pub mod request;
pub mod laws;
