//! The protocol's guarantees, stated and proved once and for all over the
//! models that the engine's contracts use.

use vstd::prelude::*;

use crate::codec::{
    lemma_deserialize_serialize, lemma_deserialized_wf, lemma_serialized_len, spec_deserialize,
};
use crate::engine::{spec_buy, spec_commit_buy, spec_prepare_buy, spec_store, AccountModel};
use crate::errors::PromptError;
use crate::record::{PromptModel, CONTENT_LEN, RECORD_LEN, TITLE_LEN};

verus! {

/// Every Store by a signing creator into a buffer of the record size yields
/// a record owned by the creator, listed for sale, with exactly the decoded
/// title, content and price.
pub proof fn lemma_store_creates_listed_record(
    creator: AccountModel,
    storage: Seq<u8>,
    title: Seq<u8>,
    content: Seq<u8>,
    price: u64,
)
    requires
        creator.wf(),
        creator.is_signer,
        storage.len() == RECORD_LEN,
        title.len() == TITLE_LEN,
        content.len() == CONTENT_LEN,
    ensures
        spec_store(creator, storage, title, content, price) matches Ok(bytes)
            && spec_deserialize(bytes) == Some(
            PromptModel { owner: creator.identity, title, content, price, is_listed: true },
        ),
{
    let m = PromptModel { owner: creator.identity, title, content, price, is_listed: true };
    lemma_serialized_len(m);
    lemma_deserialize_serialize(m);
}

/// A purchase of a listed record by a signing buyer succeeds exactly when
/// the external transfer succeeds; the amount handed to the transfer
/// primitive is the record's price, and on success the record passes to the
/// buyer, is delisted, and keeps its title, content and price.
pub proof fn lemma_buy_of_listed_record(buyer: AccountModel, storage: Seq<u8>)
    requires
        buyer.wf(),
        buyer.is_signer,
        spec_deserialize(storage) matches Some(m) && m.is_listed,
    ensures
        spec_prepare_buy(buyer, storage) == Ok::<u64, PromptError>(
            spec_deserialize(storage).unwrap().price,
        ),
        spec_buy(buyer, storage, false) == Err::<Seq<u8>, PromptError>(PromptError::TransferFailed),
        spec_buy(buyer, storage, true) matches Ok(bytes) && spec_deserialize(bytes) == Some(
            PromptModel {
                owner: buyer.identity,
                title: spec_deserialize(storage).unwrap().title,
                content: spec_deserialize(storage).unwrap().content,
                price: spec_deserialize(storage).unwrap().price,
                is_listed: false,
            },
        ),
{
    let m = spec_deserialize(storage).unwrap();
    lemma_deserialized_wf(storage);
    let n = PromptModel {
        owner: buyer.identity,
        title: m.title,
        content: m.content,
        price: m.price,
        is_listed: false,
    };
    lemma_serialized_len(n);
    lemma_deserialize_serialize(n);
}

/// A second purchase of an already bought — hence no longer listed — record
/// always fails with `RecordNotListed`, whoever signs it and however the
/// transfer would have gone; no transfer is even prepared. That the failing
/// call leaves the buffer byte-for-byte unchanged is part of `buy_prompt`'s
/// own contract.
pub proof fn lemma_second_buy_fails(
    buyer1: AccountModel,
    storage: Seq<u8>,
    transfer_ok1: bool,
    buyer2: AccountModel,
    transfer_ok2: bool,
)
    requires
        buyer1.wf(),
        buyer2.is_signer,
        spec_buy(buyer1, storage, transfer_ok1) matches Ok(_bytes),
    ensures
        spec_buy(buyer1, storage, transfer_ok1) matches Ok(bytes) && spec_prepare_buy(buyer2, bytes)
            == Err::<u64, PromptError>(PromptError::RecordNotListed),
        spec_buy(buyer1, storage, transfer_ok1) matches Ok(bytes) && spec_buy(
            buyer2,
            bytes,
            transfer_ok2,
        ) == Err::<Seq<u8>, PromptError>(PromptError::RecordNotListed),
{
    let m = spec_deserialize(storage).unwrap();
    lemma_deserialized_wf(storage);
    let n = PromptModel {
        owner: buyer1.identity,
        title: m.title,
        content: m.content,
        price: m.price,
        is_listed: false,
    };
    lemma_serialized_len(n);
    lemma_deserialize_serialize(n);
    assert(spec_commit_buy(buyer1, storage) == Ok::<Seq<u8>, PromptError>(
        crate::codec::spec_serialize(n),
    ));
}

/// A purchase without the buyer's signature is rejected with
/// `MissingSignature` whatever the buffer holds. The rejection is decided by
/// `prepare_buy`, before any transfer is attempted, so the transfer
/// primitive observes no call for an unsigned buyer.
pub proof fn lemma_unsigned_buy_rejected(buyer: AccountModel, storage: Seq<u8>, transfer_ok: bool)
    requires
        !buyer.is_signer,
    ensures
        spec_prepare_buy(buyer, storage) == Err::<u64, PromptError>(PromptError::MissingSignature),
        spec_buy(buyer, storage, transfer_ok) == Err::<Seq<u8>, PromptError>(
            PromptError::MissingSignature,
        ),
{
}

} // verus!
