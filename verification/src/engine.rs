//! The state transition engine: authorization checks and the two operations
//! on an asset record, modeled as stateless functions of the supplied
//! account views.
//!
//! The external value-transfer primitive is out of scope: the engine splits
//! a purchase into `prepare_buy`, which decides whether a transfer may be
//! attempted and of what amount, and `commit_buy`, which applies the
//! ownership flip after the transfer succeeded. `buy_prompt` and
//! `process_instruction` take the primitive's outcome as an argument and are
//! verified for either outcome; the host's all-or-nothing execution discards
//! every staged effect when an invocation fails.

use vstd::prelude::*;

use crate::bytes_util::clone_bytes;
use crate::codec::{deserialize_record, serialize_record, spec_deserialize, spec_serialize};
use crate::errors::PromptError;
use crate::instruction::{parse_instruction, spec_parse, InstructionModel, PromptInstruction};
use crate::record::{Prompt, PromptModel, OWNER_LEN};

verus! {

/// Mathematical model of an account handle as the host supplies it.
#[verifier::ext_equal]
pub ghost struct AccountModel {
    pub identity: Seq<u8>,
    pub is_signer: bool,
    pub is_writable: bool,
    pub data: Seq<u8>,
}

impl AccountModel {
    /// The host hands out identities of exactly the public-key width.
    pub open spec fn wf(self) -> bool {
        self.identity.len() == OWNER_LEN
    }
}

/// An externally supplied account handle: an identity, the signer and
/// writability flags of the current invocation, and the account's storage
/// buffer.
pub struct AccountView {
    /// The account's identity (a public-key-sized identifier).
    pub identity: Vec<u8>,
    /// Whether this identity cryptographically authorized the invocation.
    pub is_signer: bool,
    /// Whether the host allows this invocation to mutate the buffer.
    pub is_writable: bool,
    /// The account's storage buffer.
    pub data: Vec<u8>,
}

impl View for AccountView {
    type V = AccountModel;

    open spec fn view(&self) -> AccountModel {
        AccountModel {
            identity: self.identity@,
            is_signer: self.is_signer,
            is_writable: self.is_writable,
            data: self.data@,
        }
    }
}

/// The models of a sequence of account views.
pub open spec fn views_of(s: Seq<AccountView>) -> Seq<AccountModel> {
    s.map_values(|a: AccountView| a@)
}

/// What Store does: requires the creator's signature, then overwrites the
/// storage buffer with a freshly listed record owned by the creator,
/// provided the serialized record exactly fills the buffer.
pub open spec fn spec_store(
    creator: AccountModel,
    storage: Seq<u8>,
    title: Seq<u8>,
    content: Seq<u8>,
    price: u64,
) -> Result<Seq<u8>, PromptError> {
    if !creator.is_signer {
        Err(PromptError::MissingSignature)
    } else {
        let bytes = spec_serialize(
            PromptModel { owner: creator.identity, title, content, price, is_listed: true },
        );
        if bytes.len() != storage.len() {
            Err(PromptError::StorageSizeMismatch)
        } else {
            Ok(bytes)
        }
    }
}

/// What the first half of Buy decides: whether a transfer may be attempted,
/// and of what amount. It requires the buyer's signature and a listed
/// record; it touches nothing.
pub open spec fn spec_prepare_buy(buyer: AccountModel, storage: Seq<u8>) -> Result<
    u64,
    PromptError,
> {
    if !buyer.is_signer {
        Err(PromptError::MissingSignature)
    } else {
        match spec_deserialize(storage) {
            None => Err(PromptError::DeserializationFailure),
            Some(m) => if !m.is_listed {
                Err(PromptError::RecordNotListed)
            } else {
                Ok(m.price)
            },
        }
    }
}

/// What the second half of Buy does once the transfer succeeded: rewrite the
/// record with the buyer as owner and the listing flag cleared, under the
/// same exact-size constraint as Store.
pub open spec fn spec_commit_buy(buyer: AccountModel, storage: Seq<u8>) -> Result<
    Seq<u8>,
    PromptError,
> {
    match spec_deserialize(storage) {
        None => Err(PromptError::DeserializationFailure),
        Some(m) => {
            let bytes = spec_serialize(
                PromptModel {
                    owner: buyer.identity,
                    title: m.title,
                    content: m.content,
                    price: m.price,
                    is_listed: false,
                },
            );
            if bytes.len() != storage.len() {
                Err(PromptError::StorageSizeMismatch)
            } else {
                Ok(bytes)
            }
        },
    }
}

/// What a whole Buy does, given the outcome of the external transfer: the
/// preparation's checks, then `TransferFailed` when the primitive failed,
/// then the commit.
pub open spec fn spec_buy(buyer: AccountModel, storage: Seq<u8>, transfer_ok: bool) -> Result<
    Seq<u8>,
    PromptError,
> {
    match spec_prepare_buy(buyer, storage) {
        Err(e) => Err(e),
        Ok(_amount) => if !transfer_ok {
            Err(PromptError::TransferFailed)
        } else {
            spec_commit_buy(buyer, storage)
        },
    }
}

/// What a whole invocation does to the supplied accounts: decode, dispatch,
/// and apply the selected operation to the positional accounts — Store uses
/// [creator, record storage], Buy uses [buyer, seller, record storage]. On
/// any error no account changes.
pub open spec fn spec_process(
    accounts: Seq<AccountModel>,
    data: Seq<u8>,
    transfer_ok: bool,
) -> Result<Seq<AccountModel>, PromptError> {
    match spec_parse(data) {
        None => Err(PromptError::MalformedInstruction),
        Some(InstructionModel::Store { title, content, price }) => if accounts.len() < 2 {
            Err(PromptError::NotEnoughAccounts)
        } else {
            match spec_store(accounts[0], accounts[1].data, title, content, price) {
                Err(e) => Err(e),
                Ok(bytes) => Ok(
                    accounts.update(
                        1,
                        AccountModel {
                            identity: accounts[1].identity,
                            is_signer: accounts[1].is_signer,
                            is_writable: accounts[1].is_writable,
                            data: bytes,
                        },
                    ),
                ),
            }
        },
        Some(InstructionModel::Buy { prompt_id: _ }) => if accounts.len() < 3 {
            Err(PromptError::NotEnoughAccounts)
        } else {
            match spec_buy(accounts[0], accounts[2].data, transfer_ok) {
                Err(e) => Err(e),
                Ok(bytes) => Ok(
                    accounts.update(
                        2,
                        AccountModel {
                            identity: accounts[2].identity,
                            is_signer: accounts[2].is_signer,
                            is_writable: accounts[2].is_writable,
                            data: bytes,
                        },
                    ),
                ),
            }
        },
    }
}

/// Creates or overwrites the record in `storage`: the new record is owned by
/// `creator`, listed for sale at `price`. Fails with `MissingSignature` when
/// the creator did not sign, and with `StorageSizeMismatch` when the
/// serialized record would not exactly fill the buffer; on any failure the
/// buffer is unchanged.
pub fn store_prompt(
    creator: &AccountView,
    storage: &mut Vec<u8>,
    title: Vec<u8>,
    content: Vec<u8>,
    price: u64,
) -> (r: Result<(), PromptError>)
    ensures
        match spec_store(creator@, old(storage)@, title@, content@, price) {
            Ok(bytes) => r == Ok::<(), PromptError>(()) && final(storage)@ == bytes,
            Err(e) => r == Err::<(), PromptError>(e) && final(storage)@ == old(storage)@,
        },
{
    if !creator.is_signer {
        return Err(PromptError::MissingSignature);
    }
    let record = Prompt {
        owner: clone_bytes(&creator.identity),
        title,
        content,
        price,
        is_listed: true,
    };
    let bytes = serialize_record(&record);
    if bytes.len() != storage.len() {
        return Err(PromptError::StorageSizeMismatch);
    }
    *storage = bytes;
    Ok(())
}

/// Decides whether a purchase of the record in `storage` by `buyer` may
/// proceed; on success returns the amount the external primitive must
/// transfer from the buyer to the seller. Rejects an unsigned buyer with
/// `MissingSignature` before anything else, so no transfer is ever attempted
/// for one.
pub fn prepare_buy(buyer: &AccountView, storage: &Vec<u8>) -> (r: Result<u64, PromptError>)
    ensures
        r == spec_prepare_buy(buyer@, storage@),
{
    if !buyer.is_signer {
        return Err(PromptError::MissingSignature);
    }
    match deserialize_record(storage) {
        Err(e) => Err(e),
        Ok(record) => if !record.is_listed {
            Err(PromptError::RecordNotListed)
        } else {
            Ok(record.price)
        },
    }
}

/// Applies the ownership flip after a successful transfer: the record in
/// `storage` is rewritten with `buyer` as owner and the listing flag
/// cleared, keeping title, content and price; on any failure the buffer is
/// unchanged.
pub fn commit_buy(buyer: &AccountView, storage: &mut Vec<u8>) -> (r: Result<(), PromptError>)
    ensures
        match spec_commit_buy(buyer@, old(storage)@) {
            Ok(bytes) => r == Ok::<(), PromptError>(()) && final(storage)@ == bytes,
            Err(e) => r == Err::<(), PromptError>(e) && final(storage)@ == old(storage)@,
        },
{
    let record = match deserialize_record(storage) {
        Err(e) => {
            return Err(e);
        },
        Ok(record) => record,
    };
    let new_record = Prompt {
        owner: clone_bytes(&buyer.identity),
        title: record.title,
        content: record.content,
        price: record.price,
        is_listed: false,
    };
    let bytes = serialize_record(&new_record);
    if bytes.len() != storage.len() {
        return Err(PromptError::StorageSizeMismatch);
    }
    *storage = bytes;
    Ok(())
}

/// A whole Buy, given the outcome of the external transfer primitive: the
/// record in `storage` passes to `buyer` and is delisted exactly when the
/// buyer signed, the buffer held a listed record, and the transfer
/// succeeded; on any failure the buffer is unchanged. The decoded
/// `prompt_id` is accepted but not checked against the buffer — supplying
/// the storage buffer that corresponds to it is the dispatch layer's
/// responsibility.
#[allow(unused_variables)]
pub fn buy_prompt(
    buyer: &AccountView,
    storage: &mut Vec<u8>,
    prompt_id: u64,
    transfer_ok: bool,
) -> (r: Result<(), PromptError>)
    ensures
        match spec_buy(buyer@, old(storage)@, transfer_ok) {
            Ok(bytes) => r == Ok::<(), PromptError>(()) && final(storage)@ == bytes,
            Err(e) => r == Err::<(), PromptError>(e) && final(storage)@ == old(storage)@,
        },
{
    match prepare_buy(buyer, &*storage) {
        Err(e) => {
            return Err(e);
        },
        Ok(_amount) => {},
    }
    if !transfer_ok {
        return Err(PromptError::TransferFailed);
    }
    commit_buy(buyer, storage)
}

/// One whole invocation: decodes `instruction_data`, dispatches on the
/// operation, and applies it to the positional accounts, with the outcome of
/// the external transfer primitive supplied for purchases. On any error the
/// accounts are unchanged.
pub fn process_instruction(
    accounts: &mut Vec<AccountView>,
    instruction_data: &Vec<u8>,
    transfer_ok: bool,
) -> (r: Result<(), PromptError>)
    ensures
        match spec_process(views_of(old(accounts)@), instruction_data@, transfer_ok) {
            Ok(models) => r == Ok::<(), PromptError>(()) && views_of(final(accounts)@) == models,
            Err(e) => r == Err::<(), PromptError>(e) && views_of(final(accounts)@) == views_of(
                old(accounts)@,
            ),
        },
{
    let ghost accounts0 = accounts@;
    let instr = match parse_instruction(instruction_data) {
        Err(e) => {
            return Err(e);
        },
        Ok(instr) => instr,
    };
    match instr {
        PromptInstruction::StorePrompt { title, content, price } => {
            if accounts.len() < 2 {
                return Err(PromptError::NotEnoughAccounts);
            }
            let mut storage_acct = accounts.remove(1);
            let r = store_prompt(&accounts[0], &mut storage_acct.data, title, content, price);
            accounts.insert(1, storage_acct);
            proof {
                lemma_put_back_views(accounts0, accounts@, 1);
                if r is Err {
                    assert(accounts@[1]@ == accounts0[1]@);
                    assert(views_of(accounts0).update(1, accounts0[1]@) =~= views_of(accounts0));
                }
            }
            r
        },
        PromptInstruction::BuyPrompt { prompt_id } => {
            if accounts.len() < 3 {
                return Err(PromptError::NotEnoughAccounts);
            }
            let mut storage_acct = accounts.remove(2);
            let r = buy_prompt(&accounts[0], &mut storage_acct.data, prompt_id, transfer_ok);
            accounts.insert(2, storage_acct);
            proof {
                lemma_put_back_views(accounts0, accounts@, 2);
                if r is Err {
                    assert(accounts@[2]@ == accounts0[2]@);
                    assert(views_of(accounts0).update(2, accounts0[2]@) =~= views_of(accounts0));
                }
            }
            r
        },
    }
}

/// Taking an account out, changing only its storage buffer, and putting it
/// back at the same place updates exactly that position of the models.
proof fn lemma_put_back_views(before: Seq<AccountView>, after: Seq<AccountView>, i: int)
    requires
        0 <= i < before.len(),
        after == before.remove(i).insert(i, after[i]),
    ensures
        after.len() == before.len(),
        views_of(after) =~= views_of(before).update(i, after[i]@),
        forall|j: int| 0 <= j < before.len() && j != i ==> after[j] == #[trigger] before[j],
{
    assert forall|j: int| 0 <= j < before.len() && j != i implies after[j] == #[trigger] before[j] by {
        if j < i {
            assert(before.remove(i)[j] == before[j]);
        } else {
            assert(before.remove(i)[j - 1] == before[j]);
        }
    }
}

} // verus!
