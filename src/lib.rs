//! Record access for an authenticated quote/todo service.
//!
//! The library plans every store statement from a caller identity and a
//! sparse patch, interprets what the store hands back, and maps failures to
//! caller-facing categories. Executing statements against the connection
//! pool is left to the embedding program.
pub mod model;
pub mod outcome;
pub mod request;
pub mod security;
pub mod text;
