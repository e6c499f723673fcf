//! An authorization gate over a fixed-capacity, sorted registry of identities.
//!
//! A registry account persists an 8-byte record tag followed by 64 identity
//! keys of 32 bytes each, kept in ascending bytewise order. One predicate
//! decides whether an invocation is authentic and authorized: the registry account
//! must be owned by the well-known program authority, the caller must have
//! signed the invocation, the record tag must match, and the caller's key
//! must be present in the registry. Every failure collapses to a denial;
//! malformed input is rejected, never trusted.

pub mod gate;
pub mod keys;
pub mod registry;

pub use gate::is_invoked_by_segmenter;
pub use gate::Account;
pub use keys::Pubkey;
pub use registry::Registry;
