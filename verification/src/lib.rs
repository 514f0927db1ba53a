//! Verified core of a Bitwarden-compatible vault server: JSON shaping of
//! cipher records, request validation, token handling and the account and
//! administration rules.

pub mod json;
pub mod text;
pub mod decode;
pub mod error;
pub mod models;
pub mod auth;
pub mod handlers;
pub mod routing;
pub mod laws;
