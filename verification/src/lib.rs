//! The core of a question-and-answer service: the failures that it reports and
//! what a client is told of each, and registration and login with hashed
//! passwords and signed tokens.

pub mod authentication;
pub mod decimal;
pub mod handle_errors;
pub mod password;
pub mod token;
pub mod types;
pub mod views;
