//! The request handlers' decisions and answers.

pub mod accounts;
pub mod admin;
pub mod sync;
