//! The error kinds with which an invocation is rejected. Every error aborts
//! the whole invocation; the engine never reports a partial success.

use vstd::prelude::*;

verus! {

/// Why an invocation was rejected.
#[derive(Debug, Clone, Copy, PartialEq, Eq, Structural)]
pub enum PromptError {
    /// Bad discriminant byte, short instruction buffer, or a text field that
    /// is not valid UTF-8.
    MalformedInstruction,
    /// A required signer flag is absent.
    MissingSignature,
    /// The serialized record's size differs from the storage buffer's
    /// capacity.
    StorageSizeMismatch,
    /// A purchase was attempted on a record that is not listed for sale.
    RecordNotListed,
    /// The record storage buffer does not hold a well-formed record.
    DeserializationFailure,
    /// The external value-transfer primitive reported failure.
    TransferFailed,
    /// Fewer account handles were supplied than the operation needs.
    NotEnoughAccounts,
}

} // verus!
