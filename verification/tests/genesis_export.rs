use std::collections::BTreeMap;

use sp_core::storage::Storage;
use tinkernet_node::error::CommandError;
use tinkernet_node::genesis::{export_genesis_state, export_genesis_wasm, extract_genesis_wasm};
use tinkernet_node::hex::{genesis_output, hex_string};

fn storage_with(entries: &[(&[u8], &[u8])]) -> Storage {
    let mut top = BTreeMap::new();
    for (k, v) in entries {
        top.insert(k.to_vec(), v.to_vec());
    }
    Storage { top, children_default: Default::default() }
}

#[test]
fn hex_string_is_prefixed_lowercase() {
    assert_eq!(hex_string(&[0xbe, 0xef, 0x00, 0x0a]), "0xbeef000a");
    assert_eq!(hex_string(&[]), "0x");
    assert_eq!(hex_string(&[0xff, 0x10]), "0xff10");
}

#[test]
fn raw_output_is_the_payload() {
    assert_eq!(genesis_output(vec![1, 2, 255], true), vec![1, 2, 255]);
    assert_eq!(genesis_output(vec![], true), Vec::<u8>::new());
}

#[test]
fn hex_output_is_utf8_of_prefixed_hex() {
    assert_eq!(genesis_output(vec![1, 2, 255], false), b"0x0102ff".to_vec());
    assert_eq!(genesis_output(vec![], false), b"0x".to_vec());
}

#[test]
fn hex_output_length_is_two_plus_two_per_byte() {
    let payload: Vec<u8> = (0u8..=255).collect();
    let out = genesis_output(payload.clone(), false);
    assert_eq!(out.len(), 2 + 2 * payload.len());
    assert_eq!(&out[..2], b"0x");
}

#[test]
fn distinct_payloads_give_distinct_outputs() {
    assert_ne!(genesis_output(vec![0x01, 0x23], false), genesis_output(vec![0x12, 0x30], false));
    assert_ne!(genesis_output(vec![0x00], true), genesis_output(vec![0x00, 0x00], true));
}

#[test]
fn extract_takes_the_code_entry() {
    let storage = storage_with(&[
        (b":code", b"\0asm\x01"),
        (b":heappages", &[8, 0, 0, 0, 0, 0, 0, 0]),
        (b"other", b"value"),
    ]);
    assert_eq!(extract_genesis_wasm(storage), Ok(b"\0asm\x01".to_vec()));
}

#[test]
fn extract_without_code_fails() {
    let storage = storage_with(&[(b":pending_code", b"x"), (b"code", b"y")]);
    let err = extract_genesis_wasm(storage).unwrap_err();
    assert_eq!(err, CommandError::WasmNotFound);
    assert_eq!(err.message(), "Could not find wasm file in genesis state!");
}

#[test]
fn extract_from_empty_state_fails() {
    assert_eq!(extract_genesis_wasm(Storage::default()), Err(CommandError::WasmNotFound));
}

#[test]
fn export_wasm_raw_and_hex() {
    let storage = storage_with(&[(b":code", &[0xde, 0xad])]);
    assert_eq!(export_genesis_wasm(storage.clone(), true), Ok(vec![0xde, 0xad]));
    assert_eq!(export_genesis_wasm(storage, false), Ok(b"0xdead".to_vec()));
    assert_eq!(export_genesis_wasm(Storage::default(), false), Err(CommandError::WasmNotFound));
}

#[test]
fn export_state_raw_and_hex() {
    assert_eq!(export_genesis_state(vec![0x0a, 0xb0], true), vec![0x0a, 0xb0]);
    assert_eq!(export_genesis_state(vec![0x0a, 0xb0], false), b"0x0ab0".to_vec());
}

#[test]
fn hex_output_matches_two_digit_formatting_for_every_byte() {
    let payload: Vec<u8> = (0u8..=255).rev().collect();
    let expected: String =
        std::iter::once("0x".to_string()).chain(payload.iter().map(|b| format!("{:02x}", b))).collect();
    assert_eq!(genesis_output(payload.clone(), false), expected.into_bytes());
    assert_eq!(hex_string(&payload).len(), 2 + 2 * 256);
}
