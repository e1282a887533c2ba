//! The error taxonomy of the registry.
//!
//! Every failure is local and deterministic, caused solely by the input data:
//! a variant distinguishes a corrupted artifact bundle from a caller asking
//! for something that is not catalogued, and from a malformed address string.

use vstd::prelude::*;

verus! {

/// What a registry operation can report instead of a value.
#[derive(Clone, Copy, Debug, PartialEq, Eq, Structural)]
pub enum RegistryError {
    /// The address book for the chosen network is not valid JSON.
    MalformedAddressBook,
    /// The requested contract (or its `address` field) is absent.
    UnknownContract,
    /// The address string is not a fixed-width hex-encoded identifier.
    InvalidAddressFormat,
    /// The contract artifact is not valid JSON.
    MalformedArtifact,
    /// The extracted value does not describe a contract interface.
    MalformedAbi,
    /// Reserved: binding the client cannot fail in this registry, but callers
    /// that layer client construction on top report it with this variant.
    ClientConstructionFailed,
}

} // verus!
