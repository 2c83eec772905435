//! Verified core of a minimal asset marketplace: a priced record (a
//! "prompt") is created and listed for sale by a Store operation and
//! transferred for payment by a Buy operation.
//!
//! The library decodes instruction bytes, applies the two state transitions
//! to externally supplied account views, and proves the protocol's
//! authorization and atomicity rules. The host ledger's account loading and
//! the native value-transfer primitive stay outside: the engine takes the
//! account views and the transfer outcome as inputs and is verified for
//! every value of them.

pub mod bytes_util;
pub mod codec;
pub mod engine;
pub mod errors;
pub mod instruction;
pub mod laws;
pub mod record;
