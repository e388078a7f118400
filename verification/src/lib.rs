//! Verified core of an audiobook server.
//!
//! - `helpers`: identifiers, MLLT seek tables for MP3 files, configuration
//!   of the database connections, the signing secret.
//! - `api`, `handlers`, `responses`: planning HTTP range answers, reading
//!   API tokens from requests, logging in, and the API's answers.
//! - `worker`: what scanning a library decides (which books to read again,
//!   which are gone, how multi-file books are split into chapters),
//!   checksums, and the time line of concatenated files.
//! - `encoder`: the byte-stream bookkeeping of the Opus re-encoder.
//! - `config`, `models`, `validation`, `static_files`: the data the server
//!   works with.
//! - `text`: character-level helpers the rest is proved with.
pub mod api;
pub mod config;
pub mod encoder;
pub mod handlers;
pub mod helpers;
pub mod models;
pub mod responses;
pub mod static_files;
pub mod text;
pub mod validation;
pub mod worker;
