//! A network-parameterized, validated contract-registry library.
//!
//! Given a network identifier and a contract name, the registry resolves a
//! deployed address and an ABI out of JSON artifact blobs, validates both,
//! and hands back a contract handle bound to a caller-supplied client.

pub mod abi;
pub mod address;
pub mod book;
pub mod errors;
pub mod network;
pub mod registry;
pub mod text;
