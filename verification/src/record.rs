//! The asset record ("prompt"): the unit of sale. A record lives in a single
//! externally supplied storage buffer and is only ever rewritten in place by
//! the two operations of the engine.

use vstd::prelude::*;

verus! {

/// Width in bytes of an identity (a public-key-sized identifier).
pub const OWNER_LEN: usize = 32;

/// Width in bytes of the fixed-length title field.
pub const TITLE_LEN: usize = 20;

/// Width in bytes of the fixed-length content field.
pub const CONTENT_LEN: usize = 20;

/// Width in bytes of the little-endian price field.
pub const PRICE_LEN: usize = 8;

/// Serialized size of a well-formed record: owner, title, content, price,
/// and one listing-flag byte.
pub const RECORD_LEN: usize = 81;

/// Mathematical model of an asset record.
#[verifier::ext_equal]
pub ghost struct PromptModel {
    pub owner: Seq<u8>,
    pub title: Seq<u8>,
    pub content: Seq<u8>,
    pub price: u64,
    pub is_listed: bool,
}

impl PromptModel {
    /// A record is well formed when each fixed-width field has exactly its
    /// allotted width.
    pub open spec fn wf(self) -> bool {
        &&& self.owner.len() == OWNER_LEN
        &&& self.title.len() == TITLE_LEN
        &&& self.content.len() == CONTENT_LEN
    }
}

/// An asset record as held in memory between deserialization and
/// serialization.
pub struct Prompt {
    /// Identity of the current holder.
    pub owner: Vec<u8>,
    /// Fixed-width display string, as raw bytes.
    pub title: Vec<u8>,
    /// Fixed-width payload string, as raw bytes.
    pub content: Vec<u8>,
    /// Sale price in the ledger's native unit.
    pub price: u64,
    /// Whether the record is currently eligible for purchase.
    pub is_listed: bool,
}

impl View for Prompt {
    type V = PromptModel;

    open spec fn view(&self) -> PromptModel {
        PromptModel {
            owner: self.owner@,
            title: self.title@,
            content: self.content@,
            price: self.price,
            is_listed: self.is_listed,
        }
    }
}

} // verus!
