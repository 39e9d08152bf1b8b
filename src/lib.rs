//! A client library for text-paste services: picks a window of lines out of
//! the input, composes paste URLs, and reads the answers of the two kinds of
//! paste backends into one uniform result.

pub mod backend;
pub mod compose;
pub mod error;
pub mod lines;
pub mod options;
pub mod text;
