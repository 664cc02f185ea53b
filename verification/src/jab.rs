//! The Java Access Bridge model: roles, the bridge's records, accessible objects.
pub mod packages;
pub mod context;
pub mod listeners;
pub mod role;
pub mod table;
