//! The records the server stores and exchanges.

pub mod cipher;
pub mod user;
pub mod import;
