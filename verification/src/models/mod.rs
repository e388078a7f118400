pub mod user;
pub mod library;
