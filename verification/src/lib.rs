//! Verification of selective-disclosure proofs over anonymous credentials.
//!
//! A holder reveals some attributes of a credential and proves predicates
//! over the hidden ones. This crate decides whether a request satisfies a
//! disclosure rule, and extracts the attributes that a request reveals.
//! The proof system itself is a capability supplied by the caller.

pub mod model;
pub mod names;
pub mod rule;
pub mod decode;
pub mod predicate;
pub mod assembly;
pub mod laws;
