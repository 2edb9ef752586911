//! Identity and booking core of a travel-booking backend.
//!
//! The crate covers the pieces worth specifying precisely: hashing and
//! verifying passwords, issuing and validating signed session tokens,
//! extracting and authorizing a caller's identity, and keeping a user's
//! reservation history consistent with its running total.

pub mod account;
pub mod catalog;
pub mod credentials;
pub mod guard;
pub mod ledger;
pub mod models;
pub mod strutil;
pub mod token;
