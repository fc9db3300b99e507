//! Syntax highlighting for the hunks of a diff: a classifier that tracks the
//! section of the diff line by line, the extension of each file's header,
//! and a painter that lays syntax colors over an added or removed background.
pub mod color;
pub mod config;
pub mod engine;
pub mod extension;
pub mod paint;
pub mod pipeline;
pub mod render;
pub mod section;
pub mod text;
