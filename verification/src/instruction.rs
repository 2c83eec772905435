//! The instruction decoder: turns an opaque byte buffer into one of the two
//! typed operations, validating length, discriminant and text encoding.
//!
//! Wire format, little-endian: byte 0 is the discriminant (`0` selects
//! Store, `1` selects Buy). A Store instruction carries a fixed-width title,
//! a fixed-width content and an 8-byte price; a Buy instruction carries an
//! 8-byte identifier. Trailing bytes beyond a variant's fields are ignored.

use vstd::bytes::*;
use vstd::prelude::*;

use crate::bytes_util::copy_range;
use crate::errors::PromptError;
use crate::record::{CONTENT_LEN, PRICE_LEN, TITLE_LEN};

verus! {

/// Whether a byte sequence is valid UTF-8. The decoder never inspects the
/// decoded characters, so validity is all the protocol asks of text fields.
pub uninterp spec fn is_utf8(s: Seq<u8>) -> bool;

/// Relies on core::str::from_utf8, which returns `Ok` exactly when the bytes
/// are valid UTF-8 — a property of the bytes alone.
#[verifier::external_body]
fn utf8_check(bytes: &Vec<u8>) -> (r: bool)
    ensures
        r == is_utf8(bytes@),
{
    core::str::from_utf8(bytes.as_slice()).is_ok()
}

/// Shortest buffer that encodes a Store instruction: discriminant, title,
/// content, price.
pub const STORE_WIRE_LEN: usize = 49;

/// Shortest buffer that encodes a Buy instruction: discriminant and
/// identifier.
pub const BUY_WIRE_LEN: usize = 9;

/// Mathematical model of a decoded operation.
#[verifier::ext_equal]
pub ghost enum InstructionModel {
    Store { title: Seq<u8>, content: Seq<u8>, price: u64 },
    Buy { prompt_id: u64 },
}

/// A typed operation, as decoded from an instruction buffer.
pub enum PromptInstruction {
    /// Create or overwrite an asset record, listing it for sale.
    StorePrompt { title: Vec<u8>, content: Vec<u8>, price: u64 },
    /// Purchase the asset record held by the supplied storage account.
    BuyPrompt { prompt_id: u64 },
}

impl View for PromptInstruction {
    type V = InstructionModel;

    open spec fn view(&self) -> InstructionModel {
        match self {
            PromptInstruction::StorePrompt { title, content, price } => InstructionModel::Store {
                title: title@,
                content: content@,
                price: *price,
            },
            PromptInstruction::BuyPrompt { prompt_id } => InstructionModel::Buy {
                prompt_id: *prompt_id,
            },
        }
    }
}

/// The operation a byte buffer encodes, if it encodes one: a short buffer,
/// an unknown discriminant or an invalid text field encodes none.
pub open spec fn spec_parse(data: Seq<u8>) -> Option<InstructionModel> {
    if data.len() == 0 {
        None
    } else if data[0] == 0u8 {
        if data.len() >= STORE_WIRE_LEN && is_utf8(data.subrange(1, (1 + TITLE_LEN) as int))
            && is_utf8(data.subrange((1 + TITLE_LEN) as int, (1 + TITLE_LEN + CONTENT_LEN) as int)) {
            Some(
                InstructionModel::Store {
                    title: data.subrange(1, (1 + TITLE_LEN) as int),
                    content: data.subrange(
                        (1 + TITLE_LEN) as int,
                        (1 + TITLE_LEN + CONTENT_LEN) as int,
                    ),
                    price: spec_u64_from_le_bytes(
                        data.subrange(
                            (1 + TITLE_LEN + CONTENT_LEN) as int,
                            (1 + TITLE_LEN + CONTENT_LEN + PRICE_LEN) as int,
                        ),
                    ),
                },
            )
        } else {
            None
        }
    } else if data[0] == 1u8 {
        if data.len() >= BUY_WIRE_LEN {
            Some(
                InstructionModel::Buy {
                    prompt_id: spec_u64_from_le_bytes(data.subrange(1, BUY_WIRE_LEN as int)),
                },
            )
        } else {
            None
        }
    } else {
        None
    }
}

/// Decodes an instruction buffer; fails with `MalformedInstruction` exactly
/// when the buffer encodes no operation.
pub fn parse_instruction(data: &Vec<u8>) -> (r: Result<PromptInstruction, PromptError>)
    ensures
        match spec_parse(data@) {
            Some(m) => r matches Ok(instr) && instr@ == m,
            None => r == Err::<PromptInstruction, PromptError>(PromptError::MalformedInstruction),
        },
{
    if data.len() == 0 {
        return Err(PromptError::MalformedInstruction);
    }
    let discriminant = data[0];
    if discriminant == 0u8 {
        if data.len() < STORE_WIRE_LEN {
            return Err(PromptError::MalformedInstruction);
        }
        let title = copy_range(data, 1, TITLE_LEN);
        let content = copy_range(data, 1 + TITLE_LEN, CONTENT_LEN);
        if !utf8_check(&title) || !utf8_check(&content) {
            return Err(PromptError::MalformedInstruction);
        }
        let price_bytes = copy_range(data, 1 + TITLE_LEN + CONTENT_LEN, PRICE_LEN);
        let price = u64_from_le_bytes(price_bytes.as_slice());
        Ok(PromptInstruction::StorePrompt { title, content, price })
    } else if discriminant == 1u8 {
        if data.len() < BUY_WIRE_LEN {
            return Err(PromptError::MalformedInstruction);
        }
        let id_bytes = copy_range(data, 1, PRICE_LEN);
        let prompt_id = u64_from_le_bytes(id_bytes.as_slice());
        Ok(PromptInstruction::BuyPrompt { prompt_id })
    } else {
        Err(PromptError::MalformedInstruction)
    }
}

} // verus!
