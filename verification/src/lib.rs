//! An encrypted secrets vault: accounts, credentials and references to
//! encrypted files, each sensitive field sealed under a per-account key.
//!
//! The crate holds the vault's logic and proves it with Verus. It performs no
//! input or output itself: every operation on the relational store or on the
//! filesystem is described as a plain value that the caller carries out.

pub mod account;
pub mod codec;
pub mod credential;
pub mod database;
pub mod encrypted;
pub mod error;
pub mod file_data;
pub mod kdf;
pub mod processes;
pub mod vault;
pub mod world;
