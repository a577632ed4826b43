//! Verified core of a multi-user note service: password hashing, bearer
//! tokens, the error-to-response mapping, and the decisions each HTTP
//! handler takes on the rows the database hands back.
pub mod auth;
pub mod error;
pub mod handlers;
pub mod models;
pub mod sanitize;

pub use error::AppError;
