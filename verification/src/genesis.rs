use crate::error::CommandError;
use crate::hex::{genesis_output, genesis_output_spec};
use sp_core::storage::Storage;
use vstd::prelude::*;
use vstd::utf8::{encode_utf8, is_ascii_chars, is_ascii_chars_encode_utf8};

verus! {

/// `sp_core::storage::Storage`, the genesis state a chain specification builds.
#[verifier::external_type_specification]
#[verifier::external_body]
pub struct ExStorage(Storage);

/// The entries of the top trie of a genesis state (its `top` map).
pub uninterp spec fn storage_top(storage: Storage) -> Map<Seq<u8>, Seq<u8>>;

/// The storage key under which a genesis state holds the runtime's wasm code,
/// `:code`.
pub open spec fn code_key_spec() -> Seq<u8> {
    seq![58u8, 99u8, 111u8, 100u8, 101u8]
}

/// `sp_core::storage::well_known_keys::CODE`, which its source defines as
/// `b":code"`.
#[verifier::external_body]
fn runtime_code_key() -> (key: &'static [u8])
    ensures
        key@ == code_key_spec(),
{
    sp_core::storage::well_known_keys::CODE
}

/// `BTreeMap::remove` on the top trie of `storage`: it takes the entry under
/// `key` out of the map and hands back its value, or `None` where the map
/// holds no such key; every other entry stays.
#[verifier::external_body]
fn remove_top_entry(storage: &mut Storage, key: &[u8]) -> (value: Option<Vec<u8>>)
    ensures
        storage_top(*final(storage)) == storage_top(*old(storage)).remove(key@),
        value is Some <==> storage_top(*old(storage)).contains_key(key@),
        value matches Some(v) ==> v@ == storage_top(*old(storage))[key@],
{
    storage.top.remove(key)
}

/// Takes the runtime's wasm code out of a genesis state: the value stored
/// under `:code`, or `WasmNotFound` where the state holds none.
pub fn extract_genesis_wasm(storage: Storage) -> (wasm: Result<Vec<u8>, CommandError>)
    ensures
        wasm is Ok <==> storage_top(storage).contains_key(code_key_spec()),
        wasm matches Ok(code) ==> code@ == storage_top(storage)[code_key_spec()],
        wasm matches Err(e) ==> e == CommandError::WasmNotFound,
{
    let mut storage = storage;
    match remove_top_entry(&mut storage, runtime_code_key()) {
        Some(code) => Ok(code),
        None => Err(CommandError::WasmNotFound),
    }
}

/// What `export-genesis-wasm` writes for a genesis state: its runtime code,
/// raw or as `0x`-prefixed hexadecimal text, or `WasmNotFound` where the
/// state holds no code.
pub fn export_genesis_wasm(storage: Storage, raw: bool) -> (out: Result<Vec<u8>, CommandError>)
    ensures
        out is Ok <==> storage_top(storage).contains_key(code_key_spec()),
        out matches Ok(bytes) ==> bytes@ == genesis_output_spec(
            storage_top(storage)[code_key_spec()],
            raw,
        ),
        out matches Err(e) ==> e == CommandError::WasmNotFound,
{
    match extract_genesis_wasm(storage) {
        Ok(code) => Ok(genesis_output(code, raw)),
        Err(e) => Err(e),
    }
}

/// What `export-genesis-state` writes for the SCALE encoding of a genesis
/// header: the encoding itself, or its `0x`-prefixed hexadecimal text.
pub fn export_genesis_state(encoded_header: Vec<u8>, raw: bool) -> (out: Vec<u8>)
    ensures
        out@ == genesis_output_spec(encoded_header@, raw),
{
    genesis_output(encoded_header, raw)
}

/// Law: the key the runtime code is taken from is the UTF-8 text `:code`, so
/// extraction returns exactly the value a genesis state stores under it.
pub proof fn law_code_key_is_colon_code()
    ensures
        code_key_spec() == encode_utf8(":code"@),
        code_key_spec().len() == 5,
{
    reveal_strlit(":code");
    assert(":code"@ =~= seq![':', 'c', 'o', 'd', 'e']);
    let text = seq![':', 'c', 'o', 'd', 'e'];
    assert(is_ascii_chars(text));
    is_ascii_chars_encode_utf8(text);
    let bytes = encode_utf8(text);
    assert(bytes[0] == text[0] as u8 && bytes[1] == text[1] as u8 && bytes[2] == text[2] as u8);
    assert(bytes[3] == text[3] as u8 && bytes[4] == text[4] as u8);
    assert(bytes =~= seq![58u8, 99u8, 111u8, 100u8, 101u8]);
}

} // verus!
