//! Verified core of a client of the Java Access Bridge.
pub mod jab;
pub mod utils;
pub mod library_path;
