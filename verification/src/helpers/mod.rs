pub mod uuid;
pub mod mllt;
pub mod util;
pub mod db;
pub mod content_type;
