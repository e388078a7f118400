pub mod ranged_file;
pub mod auth;
pub mod audiobooks;
