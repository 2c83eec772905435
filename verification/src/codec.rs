//! The fixed binary layout of an asset record, and the verified round trip
//! between records and storage buffers.
//!
//! A serialized record is exactly `RECORD_LEN` bytes: the owner identity,
//! the title, the content, the price in little-endian order, and one flag
//! byte (`1` when listed, `0` when not). Any buffer of another length, or
//! with a flag byte other than `0` or `1`, does not hold a record.

use vstd::bytes::*;
use vstd::prelude::*;

use crate::bytes_util::{clone_bytes, copy_range, push_bytes};
use crate::errors::PromptError;
use crate::record::{Prompt, PromptModel, CONTENT_LEN, OWNER_LEN, PRICE_LEN, RECORD_LEN, TITLE_LEN};

verus! {

/// The bytes that a record serializes to.
pub open spec fn spec_serialize(m: PromptModel) -> Seq<u8> {
    m.owner + m.title + m.content + spec_u64_to_le_bytes(m.price) + seq![
        if m.is_listed {
            1u8
        } else {
            0u8
        },
    ]
}

/// The record that a storage buffer holds, if it holds one.
pub open spec fn spec_deserialize(s: Seq<u8>) -> Option<PromptModel> {
    if s.len() == RECORD_LEN && (s[RECORD_LEN - 1] == 0u8 || s[RECORD_LEN - 1] == 1u8) {
        Some(
            PromptModel {
                owner: s.subrange(0, OWNER_LEN as int),
                title: s.subrange(OWNER_LEN as int, (OWNER_LEN + TITLE_LEN) as int),
                content: s.subrange(
                    (OWNER_LEN + TITLE_LEN) as int,
                    (OWNER_LEN + TITLE_LEN + CONTENT_LEN) as int,
                ),
                price: spec_u64_from_le_bytes(
                    s.subrange(
                        (OWNER_LEN + TITLE_LEN + CONTENT_LEN) as int,
                        (OWNER_LEN + TITLE_LEN + CONTENT_LEN + PRICE_LEN) as int,
                    ),
                ),
                is_listed: s[RECORD_LEN - 1] == 1u8,
            },
        )
    } else {
        None
    }
}

/// A well-formed record serializes to exactly `RECORD_LEN` bytes.
pub proof fn lemma_serialized_len(m: PromptModel)
    requires
        m.wf(),
    ensures
        spec_serialize(m).len() == RECORD_LEN,
{
    lemma_auto_spec_u64_to_from_le_bytes();
}

/// Deserializing what a well-formed record serializes to yields that record
/// back: the layout loses nothing.
pub proof fn lemma_deserialize_serialize(m: PromptModel)
    requires
        m.wf(),
    ensures
        spec_deserialize(spec_serialize(m)) == Some(m),
{
    lemma_auto_spec_u64_to_from_le_bytes();
    let s = spec_serialize(m);
    assert(s.len() == RECORD_LEN);
    assert(s[RECORD_LEN - 1] == if m.is_listed {
        1u8
    } else {
        0u8
    });
    let n = spec_deserialize(s).unwrap();
    assert(n.owner =~= m.owner);
    assert(n.title =~= m.title);
    assert(n.content =~= m.content);
    assert(s.subrange(
        (OWNER_LEN + TITLE_LEN + CONTENT_LEN) as int,
        (OWNER_LEN + TITLE_LEN + CONTENT_LEN + PRICE_LEN) as int,
    ) =~= spec_u64_to_le_bytes(m.price));
    assert(n.price == m.price);
    assert(n =~= m);
}

/// Serializing, deserializing, and serializing again gives the same bytes as
/// serializing once: the round trip is stable for every well-formed record.
pub proof fn lemma_serialize_round_trip(m: PromptModel)
    requires
        m.wf(),
    ensures
        spec_deserialize(spec_serialize(m)) matches Some(n) && spec_serialize(n)
            == spec_serialize(m),
{
    lemma_deserialize_serialize(m);
}

/// A buffer that holds a record has exactly `RECORD_LEN` bytes, and the
/// record it holds is well formed.
pub proof fn lemma_deserialized_wf(s: Seq<u8>)
    requires
        spec_deserialize(s) is Some,
    ensures
        s.len() == RECORD_LEN,
        spec_deserialize(s).unwrap().wf(),
{
}

/// Writes a record out in the fixed layout.
pub fn serialize_record(p: &Prompt) -> (r: Vec<u8>)
    ensures
        r@ == spec_serialize(p@),
{
    let mut out: Vec<u8> = Vec::new();
    push_bytes(&mut out, &p.owner);
    push_bytes(&mut out, &p.title);
    push_bytes(&mut out, &p.content);
    let price_bytes = u64_to_le_bytes(p.price);
    push_bytes(&mut out, &price_bytes);
    if p.is_listed {
        out.push(1u8);
    } else {
        out.push(0u8);
    }
    proof {
        assert(out@ =~= spec_serialize(p@));
    }
    out
}

/// Reads the record that `bytes` holds; fails with `DeserializationFailure`
/// exactly when `bytes` holds none.
pub fn deserialize_record(bytes: &Vec<u8>) -> (r: Result<Prompt, PromptError>)
    ensures
        match spec_deserialize(bytes@) {
            Some(m) => r matches Ok(p) && p@ == m,
            None => r == Err::<Prompt, PromptError>(PromptError::DeserializationFailure),
        },
{
    if bytes.len() != RECORD_LEN {
        return Err(PromptError::DeserializationFailure);
    }
    let flag = bytes[RECORD_LEN - 1];
    if flag != 0u8 && flag != 1u8 {
        return Err(PromptError::DeserializationFailure);
    }
    let owner = copy_range(bytes, 0, OWNER_LEN);
    let title = copy_range(bytes, OWNER_LEN, TITLE_LEN);
    let content = copy_range(bytes, OWNER_LEN + TITLE_LEN, CONTENT_LEN);
    let price_bytes = copy_range(bytes, OWNER_LEN + TITLE_LEN + CONTENT_LEN, PRICE_LEN);
    let price = u64_from_le_bytes(price_bytes.as_slice());
    let p = Prompt { owner, title, content, price, is_listed: flag == 1u8 };
    proof {
        assert(p@ =~= spec_deserialize(bytes@).unwrap());
    }
    Ok(p)
}

} // verus!
