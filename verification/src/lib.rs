//! Embedding of arbitrary-length text with a bounded-context encoder: the
//! token stream is cut into overlapping windows, each window is encoded, and
//! the windows' vectors are combined into one vector for the whole text.

pub mod error;
pub mod chunking;
pub mod chunk_laws;
pub mod config;
pub mod model;
