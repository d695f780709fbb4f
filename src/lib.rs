//! Concatenate text sources, optionally numbering their lines.

pub mod format;
pub mod render;
pub mod config;
pub mod session;
