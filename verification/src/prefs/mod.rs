//! What the user prefers.

pub mod hour_format;
