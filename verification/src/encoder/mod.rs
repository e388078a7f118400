pub mod error;
pub mod opusfile;
pub mod pipeline;

pub use self::error::EncoderError;
pub use self::opusfile::OpusStream;
