//! The records that requests carry and that the account store keeps.

pub mod account;
pub mod claims;
