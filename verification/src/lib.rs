//! Verified core of a user-authentication backend: registration with email
//! verification, password-based login issuing cookie sessions, and
//! password-reset flows via single-use tokens.
//!
//! The credential store, the token lifecycle, the authentication middleware and the
//! five user-facing flows are verified here over plain values; the thin HTTP,
//! database and email glue around them lives outside the library.
pub mod config;
pub mod email;
pub mod errors;
pub mod ext;
pub mod flows;
pub mod middleware;
pub mod model;
pub mod payload;
pub mod password;
pub mod store;
pub mod token;
pub mod view;

pub use errors::Error;
pub use errors::FieldError;
