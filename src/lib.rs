//! Validation of user-supplied profile fields and conversion between the
//! user domain values and their field-indexed wire messages.

pub mod domain;
pub mod errors;
pub mod parser;
pub mod user_profile;
