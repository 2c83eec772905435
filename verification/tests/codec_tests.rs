use prompt_market::codec::{deserialize_record, serialize_record};
use prompt_market::errors::PromptError;
use prompt_market::record::Prompt;

fn sample_record() -> Prompt {
    Prompt {
        owner: vec![0xAAu8; 32],
        title: vec![0x41u8; 20],
        content: vec![0x42u8; 20],
        price: 1000,
        is_listed: true,
    }
}

#[test]
fn serialize_layout_is_exact() {
    let bytes = serialize_record(&sample_record());
    let mut expected: Vec<u8> = Vec::new();
    expected.extend_from_slice(&[0xAAu8; 32]);
    expected.extend_from_slice(&[0x41u8; 20]);
    expected.extend_from_slice(&[0x42u8; 20]);
    expected.extend_from_slice(&[0xE8, 0x03, 0, 0, 0, 0, 0, 0]);
    expected.push(1);
    assert_eq!(bytes, expected);
    assert_eq!(bytes.len(), 81);
}

#[test]
fn round_trip_is_stable() {
    let once = serialize_record(&sample_record());
    let decoded = deserialize_record(&once).unwrap();
    let twice = serialize_record(&decoded);
    assert_eq!(twice, once);
}

#[test]
fn deserialize_reads_fields_back() {
    let bytes = serialize_record(&sample_record());
    let p = deserialize_record(&bytes).unwrap();
    assert_eq!(p.owner, vec![0xAAu8; 32]);
    assert_eq!(p.title, vec![0x41u8; 20]);
    assert_eq!(p.content, vec![0x42u8; 20]);
    assert_eq!(p.price, 1000);
    assert!(p.is_listed);
}

#[test]
fn deserialize_rejects_wrong_length() {
    let r = deserialize_record(&vec![0u8; 80]);
    assert_eq!(r.err(), Some(PromptError::DeserializationFailure));
    let r = deserialize_record(&vec![0u8; 82]);
    assert_eq!(r.err(), Some(PromptError::DeserializationFailure));
    let r = deserialize_record(&Vec::new());
    assert_eq!(r.err(), Some(PromptError::DeserializationFailure));
}

#[test]
fn deserialize_rejects_bad_flag_byte() {
    let mut bytes = serialize_record(&sample_record());
    bytes[80] = 7;
    let r = deserialize_record(&bytes);
    assert_eq!(r.err(), Some(PromptError::DeserializationFailure));
}

#[test]
fn unlisted_record_round_trips_too() {
    let mut p = sample_record();
    p.is_listed = false;
    let bytes = serialize_record(&p);
    assert_eq!(bytes[80], 0);
    let q = deserialize_record(&bytes).unwrap();
    assert!(!q.is_listed);
    assert_eq!(serialize_record(&q), bytes);
}
