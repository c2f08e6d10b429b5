//! Input validation and password-credential handling for an authentication
//! flow: bcrypt password hashing and verification, and format validators for
//! passwords, emails, phone numbers, usernames, full names and roles.
//!
//! Every validator is a total, pure function: it returns `Ok` exactly on the
//! inputs that satisfy its documented rule, and otherwise a
//! [`AppError::ValidationError`] whose message names the first violated rule.
//! The hashing functions wrap the `bcrypt` crate; their contracts relate the
//! produced hash string to later verification.

pub mod chars;
pub mod email;
pub mod error;
pub mod hashing;
pub mod validate;

pub use email::validate_email;
pub use error::AppError;
pub use hashing::DEFAULT_COST;
pub use hashing::hash_password;
pub use hashing::hash_password_with_cost;
pub use hashing::verify_password;
pub use validate::validate_full_name;
pub use validate::validate_password;
pub use validate::validate_phone_number;
pub use validate::validate_role;
pub use validate::validate_username;
