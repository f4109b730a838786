//! Credential management for a small authentication service: registration
//! with unique usernames and emails, salted memory-hard password hashing,
//! and login verification with a closed error taxonomy that never tells a
//! caller whether a username exists.

pub mod auth;
pub mod hashing;
pub mod log;
pub mod store;
