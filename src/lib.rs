//! Authentication core of a web backend: secret validation, keyed password
//! hashing, signed session tokens, signup validation and token extraction.
pub mod auth;
pub mod passwords;
pub mod secret;
pub mod signup;
pub mod tokens;
pub mod users;
