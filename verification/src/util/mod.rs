//! Helpers on bytes, words and texts.

pub mod byte_ops;
pub mod text;
