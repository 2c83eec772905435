use prompt_market::codec::deserialize_record;
use prompt_market::engine::{
    buy_prompt, commit_buy, prepare_buy, process_instruction, store_prompt, AccountView,
};
use prompt_market::errors::PromptError;
use prompt_market::instruction::{parse_instruction, PromptInstruction};

fn account(id_byte: u8, is_signer: bool) -> AccountView {
    AccountView { identity: vec![id_byte; 32], is_signer, is_writable: true, data: Vec::new() }
}

fn padded(text: &str, width: usize) -> Vec<u8> {
    let mut out = text.as_bytes().to_vec();
    assert!(out.len() <= width);
    while out.len() < width {
        out.push(b' ');
    }
    out
}

fn store_instruction(title: &str, content: &str, price: u64) -> Vec<u8> {
    let mut data = vec![0u8];
    data.extend_from_slice(&padded(title, 20));
    data.extend_from_slice(&padded(content, 20));
    data.extend_from_slice(&price.to_le_bytes());
    data
}

fn buy_instruction(prompt_id: u64) -> Vec<u8> {
    let mut data = vec![1u8];
    data.extend_from_slice(&prompt_id.to_le_bytes());
    data
}

#[test]
fn parse_reads_store_fields() {
    let data = store_instruction("Recipe", "Secret sauce", 1000);
    match parse_instruction(&data).unwrap() {
        PromptInstruction::StorePrompt { title, content, price } => {
            assert_eq!(title, padded("Recipe", 20));
            assert_eq!(content, padded("Secret sauce", 20));
            assert_eq!(price, 1000);
        }
        _ => panic!("wrong variant"),
    }
}

#[test]
fn parse_reads_buy_id_little_endian() {
    let mut data = vec![1u8];
    data.extend_from_slice(&[0x01, 0x02, 0x03, 0x04, 0x05, 0x06, 0x07, 0x08]);
    match parse_instruction(&data).unwrap() {
        PromptInstruction::BuyPrompt { prompt_id } => {
            assert_eq!(prompt_id, 0x0807060504030201);
        }
        _ => panic!("wrong variant"),
    }
}

#[test]
fn parse_rejects_unknown_discriminant() {
    let mut data = store_instruction("Recipe", "Secret sauce", 1000);
    data[0] = 2;
    assert_eq!(parse_instruction(&data).err(), Some(PromptError::MalformedInstruction));
}

#[test]
fn parse_rejects_short_buffers() {
    assert_eq!(parse_instruction(&Vec::new()).err(), Some(PromptError::MalformedInstruction));
    assert_eq!(parse_instruction(&vec![0u8; 48]).err(), Some(PromptError::MalformedInstruction));
    assert_eq!(parse_instruction(&vec![1u8; 8]).err(), Some(PromptError::MalformedInstruction));
}

#[test]
fn parse_rejects_invalid_text_encoding() {
    let mut data = store_instruction("Recipe", "Secret sauce", 1000);
    data[1] = 0xFF;
    data[2] = 0xFF;
    assert_eq!(parse_instruction(&data).err(), Some(PromptError::MalformedInstruction));
}

#[test]
fn store_sets_owner_price_and_listing() {
    let creator = account(0x11, true);
    let mut storage = vec![0u8; 81];
    let r = store_prompt(&creator, &mut storage, padded("Recipe", 20), padded("Secret sauce", 20), 1000);
    assert!(r.is_ok());
    let record = deserialize_record(&storage).unwrap();
    assert_eq!(record.owner, vec![0x11u8; 32]);
    assert_eq!(record.title, padded("Recipe", 20));
    assert_eq!(record.content, padded("Secret sauce", 20));
    assert_eq!(record.price, 1000);
    assert!(record.is_listed);
}

#[test]
fn store_without_signature_fails() {
    let creator = account(0x11, false);
    let mut storage = vec![0u8; 81];
    let before = storage.clone();
    let r = store_prompt(&creator, &mut storage, padded("a", 20), padded("b", 20), 5);
    assert_eq!(r.err(), Some(PromptError::MissingSignature));
    assert_eq!(storage, before);
}

#[test]
fn store_into_wrong_sized_buffer_fails() {
    let creator = account(0x11, true);
    let mut storage = vec![0u8; 80];
    let before = storage.clone();
    let r = store_prompt(&creator, &mut storage, padded("a", 20), padded("b", 20), 5);
    assert_eq!(r.err(), Some(PromptError::StorageSizeMismatch));
    assert_eq!(storage, before);
}

#[test]
fn buy_succeeds_when_transfer_succeeds() {
    let creator = account(0x11, true);
    let buyer = account(0x22, true);
    let mut storage = vec![0u8; 81];
    store_prompt(&creator, &mut storage, padded("Recipe", 20), padded("Secret sauce", 20), 1000)
        .unwrap();
    assert_eq!(prepare_buy(&buyer, &storage), Ok(1000));
    let r = buy_prompt(&buyer, &mut storage, 7, true);
    assert!(r.is_ok());
    let record = deserialize_record(&storage).unwrap();
    assert_eq!(record.owner, vec![0x22u8; 32]);
    assert!(!record.is_listed);
    assert_eq!(record.title, padded("Recipe", 20));
    assert_eq!(record.content, padded("Secret sauce", 20));
    assert_eq!(record.price, 1000);
}

#[test]
fn buy_fails_when_transfer_fails() {
    let creator = account(0x11, true);
    let buyer = account(0x22, true);
    let mut storage = vec![0u8; 81];
    store_prompt(&creator, &mut storage, padded("a", 20), padded("b", 20), 9).unwrap();
    let before = storage.clone();
    let r = buy_prompt(&buyer, &mut storage, 7, false);
    assert_eq!(r.err(), Some(PromptError::TransferFailed));
    assert_eq!(storage, before);
}

#[test]
fn second_buy_fails_and_changes_nothing() {
    let creator = account(0x11, true);
    let first_buyer = account(0x22, true);
    let second_buyer = account(0x33, true);
    let mut storage = vec![0u8; 81];
    store_prompt(&creator, &mut storage, padded("a", 20), padded("b", 20), 9).unwrap();
    buy_prompt(&first_buyer, &mut storage, 7, true).unwrap();
    let after_first = storage.clone();
    // The decision comes first: no transfer would even be prepared.
    assert_eq!(prepare_buy(&second_buyer, &storage).err(), Some(PromptError::RecordNotListed));
    let r = buy_prompt(&second_buyer, &mut storage, 7, true);
    assert_eq!(r.err(), Some(PromptError::RecordNotListed));
    assert_eq!(storage, after_first);
}

#[test]
fn unsigned_buy_is_rejected_before_any_transfer() {
    let creator = account(0x11, true);
    let buyer = account(0x22, false);
    let mut storage = vec![0u8; 81];
    store_prompt(&creator, &mut storage, padded("a", 20), padded("b", 20), 9).unwrap();
    let before = storage.clone();
    // Every transfer must first be approved by prepare_buy.
    assert_eq!(prepare_buy(&buyer, &storage).err(), Some(PromptError::MissingSignature));
    let r = buy_prompt(&buyer, &mut storage, 7, true);
    assert_eq!(r.err(), Some(PromptError::MissingSignature));
    assert_eq!(storage, before);
}

#[test]
fn buy_of_corrupt_record_fails() {
    let buyer = account(0x22, true);
    let mut storage = vec![0xFFu8; 81];
    let before = storage.clone();
    let r = buy_prompt(&buyer, &mut storage, 7, true);
    assert_eq!(r.err(), Some(PromptError::DeserializationFailure));
    assert_eq!(storage, before);
}

#[test]
fn commit_rewrites_owner_and_clears_listing() {
    let creator = account(0x11, true);
    let buyer = account(0x22, true);
    let mut storage = vec![0u8; 81];
    store_prompt(&creator, &mut storage, padded("a", 20), padded("b", 20), 9).unwrap();
    commit_buy(&buyer, &mut storage).unwrap();
    let record = deserialize_record(&storage).unwrap();
    assert_eq!(record.owner, vec![0x22u8; 32]);
    assert!(!record.is_listed);
}

#[test]
fn process_runs_store_then_buy() {
    let mut accounts = vec![account(0x11, true), {
        let mut a = account(0x44, false);
        a.data = vec![0u8; 81];
        a
    }];
    let r = process_instruction(&mut accounts, &store_instruction("Recipe", "Secret sauce", 1000), false);
    assert!(r.is_ok());
    let record = deserialize_record(&accounts[1].data).unwrap();
    assert_eq!(record.owner, vec![0x11u8; 32]);
    assert!(record.is_listed);

    let storage = accounts.remove(1);
    let mut accounts = vec![account(0x22, true), account(0x11, false), storage];
    let r = process_instruction(&mut accounts, &buy_instruction(7), true);
    assert!(r.is_ok());
    let record = deserialize_record(&accounts[2].data).unwrap();
    assert_eq!(record.owner, vec![0x22u8; 32]);
    assert!(!record.is_listed);
    assert_eq!(record.price, 1000);
    assert_eq!(record.title, padded("Recipe", 20));
    assert_eq!(record.content, padded("Secret sauce", 20));
}

#[test]
fn process_rejects_unknown_discriminant_untouched() {
    let mut accounts = vec![account(0x11, true), {
        let mut a = account(0x44, false);
        a.data = vec![0u8; 81];
        a
    }];
    let mut data = store_instruction("Recipe", "Secret sauce", 1000);
    data[0] = 2;
    let r = process_instruction(&mut accounts, &data, true);
    assert_eq!(r.err(), Some(PromptError::MalformedInstruction));
    assert_eq!(accounts[0].identity, vec![0x11u8; 32]);
    assert_eq!(accounts[1].data, vec![0u8; 81]);
}

#[test]
fn process_needs_enough_accounts() {
    let mut accounts = vec![account(0x11, true)];
    let r = process_instruction(&mut accounts, &store_instruction("a", "b", 1), false);
    assert_eq!(r.err(), Some(PromptError::NotEnoughAccounts));
    let mut accounts = vec![account(0x22, true), account(0x11, false)];
    let r = process_instruction(&mut accounts, &buy_instruction(7), true);
    assert_eq!(r.err(), Some(PromptError::NotEnoughAccounts));
}
