//! Cross-ledger article registration and verification.
//!
//! An article is anchored on three independent ledgers: a collectible is
//! minted on the issuance ledger, the content digest is recorded on the
//! registry ledger together with a binding signature, and the publisher's
//! identity is looked up on the identity ledger. This crate holds the
//! decisions of that workflow, each with a proved contract; the network
//! round trips are made by the caller, which hands the results back as
//! plain values.

pub mod config;
pub mod types;
pub mod error;
pub mod digest;
pub mod binding;
pub mod issuer;
pub mod registrar;
pub mod identity;
pub mod verification;
pub mod registration;
