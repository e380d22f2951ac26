//! Discovery and classification of Java runtimes installed on a host, with the small helpers
//! that a launcher front end needs around it.
pub mod auth;
pub mod files;
pub mod http;
pub mod inventory;
pub mod locate;
pub mod probe;
pub mod text;
