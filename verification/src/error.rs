//! Structured failures shared by the three builder pipelines.

use vstd::prelude::*;

verus! {

/// A required input of the transfer pipeline that was not supplied.
#[derive(Clone, Copy, Debug, PartialEq, Eq, Structural)]
pub enum TransferField {
    Root,
    DataHash,
    CreatorHash,
    Nonce,
    Index,
    TreeAddress,
    Proof,
}

/// A 32-byte hash input that failed to decode to exactly 32 bytes.
#[derive(Clone, Copy, Debug, PartialEq, Eq, Structural)]
pub enum HashField {
    Root,
    DataHash,
    CreatorHash,
    ProofElement,
}

/// Every failure a builder pipeline can surface. All are local, synchronous and
/// non-retryable; a failure at any stage aborts the whole pipeline.
#[derive(Clone, Copy, Debug, PartialEq, Eq, Structural)]
pub enum BuilderError {
    /// A base58 key string with an invalid alphabet or framing, or key bytes
    /// that are not a valid signing key encoding.
    MalformedKey,
    /// A key decoded to a byte length other than the required key size.
    InvalidKeyLength,
    /// An account address string that is not a base58 32-byte value.
    InvalidAddressString,
    /// A required transfer input was not supplied.
    MissingField(TransferField),
    /// A hash input did not decode to exactly 32 bytes.
    InvalidHashLength(HashField),
    /// Metadata whose royalty or creator shares are out of range.
    InvalidMetadata,
    /// A proof was requested from an indexer response, which is unsupported.
    UnsupportedProofSource,
    /// All 256 bump seeds were exhausted without finding an off-curve address.
    NoValidAddress,
    /// The ledger collaborator could not supply a freshness token or rent cost.
    LedgerUnavailable,
    /// Signing or binary serialization failed.
    SerializationFailure,
}

} // verus!
