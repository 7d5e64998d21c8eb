//! What the wire protocol reads out of headers.

pub mod headers;
pub mod pieces;
