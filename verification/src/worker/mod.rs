pub mod error;
pub mod hashing;
pub mod scanner;
pub mod muxer;
pub mod mediafile;
pub mod pattern;
