use vstd::prelude::*;

verus! {

/// The errors of the library. Each names the input that was refused, or says
/// in words what the underlying library refused.
#[derive(Debug, Clone, PartialEq, Eq)]
pub enum ZecError {
    /// Hex decoding, signature parsing, a rejection by the transaction
    /// builder or a serialization failure.
    GenericError(String),
    /// The vault public key is not a valid secp256k1 public key.
    InvalidVaultPubkey(String),
    /// A recipient address that cannot be paid by this library.
    InvalidAddress(String),
    /// An address of the TEX family, refused by policy.
    InvalidAddressType(String),
    /// An address that decodes but is of a family this library does not handle.
    UnsupportedAddressType(String),
    /// An address that does not decode at all.
    InvalidFormat(String),
    /// Process-wide setup was used before it was done.
    InitError(String),
    /// A memo that cannot be attached.
    InvalidMemo(String),
    /// An amount above the largest amount of the ledger.
    InvalidAmount(u64),
}

} // verus!
