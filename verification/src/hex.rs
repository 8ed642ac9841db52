use sp_core::hexdisplay::HexDisplay;
use vstd::prelude::*;
use vstd::slice::slice_to_vec;
use vstd::utf8::*;

verus! {

/// The lowercase hexadecimal digit of a value below sixteen.
pub open spec fn hex_digit(n: int) -> char {
    if n == 0 { '0' } else if n == 1 { '1' } else if n == 2 { '2' } else if n == 3 { '3' }
    else if n == 4 { '4' } else if n == 5 { '5' } else if n == 6 { '6' } else if n == 7 { '7' }
    else if n == 8 { '8' } else if n == 9 { '9' } else if n == 10 { 'a' } else if n == 11 { 'b' }
    else if n == 12 { 'c' } else if n == 13 { 'd' } else if n == 14 { 'e' } else { 'f' }
}

/// Every byte as two lowercase hexadecimal digits, high nibble first, in order.
pub open spec fn lower_hex(bytes: Seq<u8>) -> Seq<char> {
    Seq::new(
        2 * bytes.len(),
        |i: int|
            if i % 2 == 0 {
                hex_digit(bytes[i / 2] as int / 16)
            } else {
                hex_digit(bytes[i / 2] as int % 16)
            },
    )
}

/// The text `0x` followed by the lowercase hexadecimal form of `bytes`.
pub open spec fn prefixed_hex(bytes: Seq<u8>) -> Seq<char> {
    seq!['0', 'x'] + lower_hex(bytes)
}

/// What an export writes: the payload itself when `raw` is set, otherwise the
/// UTF-8 bytes of its `0x`-prefixed lowercase hexadecimal text.
pub open spec fn genesis_output_spec(payload: Seq<u8>, raw: bool) -> Seq<u8> {
    if raw {
        payload
    } else {
        encode_utf8(prefixed_hex(payload))
    }
}

/// Formats `bytes` with the `Debug` form of `sp_core::hexdisplay::HexDisplay`.
/// That `Debug` impl writes each byte with `{:02x}`, front to back, with no
/// separator and no truncation, which is `lower_hex`.
#[verifier::external_body]
fn hex_display(bytes: &[u8]) -> (hex: String)
    ensures
        hex@ == lower_hex(bytes@),
{
    format!("{:?}", HexDisplay::from(&bytes))
}

/// The `0x`-prefixed lowercase hexadecimal text of `bytes`, as the node prints
/// a genesis header or a runtime blob.
pub fn hex_string(bytes: &[u8]) -> (text: String)
    ensures
        text@ == prefixed_hex(bytes@),
{
    let hex = hex_display(bytes);
    let prefix = "0x".to_owned();
    proof {
        reveal_strlit("0x");
    }
    assert(prefix@ =~= seq!['0', 'x']);
    prefix.concat(hex.as_str())
}

/// The bytes an export of genesis data writes: `payload` unchanged when `raw`
/// is set, otherwise the UTF-8 bytes of `0x` followed by its lowercase hex.
pub fn genesis_output(payload: Vec<u8>, raw: bool) -> (out: Vec<u8>)
    ensures
        out@ == genesis_output_spec(payload@, raw),
{
    if raw {
        payload
    } else {
        let text = hex_string(payload.as_slice());
        slice_to_vec(text.as_str().as_bytes())
    }
}

/// Distinct digit values below sixteen have distinct hexadecimal digits, and
/// every digit is an ASCII character.
pub proof fn lemma_hex_digit(m: int, n: int)
    requires
        0 <= m < 16,
        0 <= n < 16,
    ensures
        hex_digit(m) == hex_digit(n) ==> m == n,
        '\0' <= hex_digit(m) <= '\u{7f}',
{
}

/// The `0x`-prefixed hexadecimal text of `bytes` is ASCII and has two
/// characters per byte after the prefix.
pub proof fn lemma_prefixed_hex_ascii(bytes: Seq<u8>)
    ensures
        is_ascii_chars(prefixed_hex(bytes)),
        prefixed_hex(bytes).len() == 2 + 2 * bytes.len(),
{
    let t = prefixed_hex(bytes);
    assert forall|i: int| 0 <= i < t.len() implies '\0' <= #[trigger] t[i] <= '\u{7f}' by {
        if i >= 2 {
            let j = i - 2;
            lemma_hex_digit(bytes[j / 2] as int / 16, 0);
            lemma_hex_digit(bytes[j / 2] as int % 16, 0);
        }
    }
}

/// Hexadecimal text determines the bytes it was made from.
pub proof fn lemma_lower_hex_injective(a: Seq<u8>, b: Seq<u8>)
    requires
        lower_hex(a) == lower_hex(b),
    ensures
        a == b,
{
    assert(lower_hex(a).len() == 2 * a.len());
    assert(lower_hex(b).len() == 2 * b.len());
    assert(a.len() == b.len());
    assert forall|j: int| 0 <= j < a.len() implies a[j] == b[j] by {
        assert((2 * j) / 2 == j && (2 * j) % 2 == 0);
        assert((2 * j + 1) / 2 == j && (2 * j + 1) % 2 == 1);
        assert(lower_hex(a)[2 * j] == hex_digit(a[j] as int / 16));
        assert(lower_hex(b)[2 * j] == hex_digit(b[j] as int / 16));
        assert(lower_hex(a)[2 * j + 1] == hex_digit(a[j] as int % 16));
        assert(lower_hex(b)[2 * j + 1] == hex_digit(b[j] as int % 16));
        lemma_hex_digit(a[j] as int / 16, b[j] as int / 16);
        lemma_hex_digit(a[j] as int % 16, b[j] as int % 16);
        assert(a[j] as int == 16 * (a[j] as int / 16) + a[j] as int % 16);
        assert(b[j] as int == 16 * (b[j] as int / 16) + b[j] as int % 16);
    }
    assert(a =~= b);
}

/// Law: an export never writes the same bytes for two different payloads,
/// in raw form and in hexadecimal form alike.
pub proof fn law_genesis_output_injective(a: Seq<u8>, b: Seq<u8>, raw: bool)
    requires
        genesis_output_spec(a, raw) == genesis_output_spec(b, raw),
    ensures
        a == b,
{
    if !raw {
        encode_utf8_decode_utf8(prefixed_hex(a));
        encode_utf8_decode_utf8(prefixed_hex(b));
        assert(lower_hex(a) =~= prefixed_hex(a).subrange(2, prefixed_hex(a).len() as int));
        assert(lower_hex(b) =~= prefixed_hex(b).subrange(2, prefixed_hex(b).len() as int));
        lemma_lower_hex_injective(a, b);
    }
}

/// Law: a hexadecimal export is `0x` followed by two ASCII digits per payload
/// byte, byte for byte the characters of its text.
pub proof fn law_genesis_output_hex_form(payload: Seq<u8>)
    ensures
        genesis_output_spec(payload, false).len() == 2 + 2 * payload.len(),
        forall|i: int|
            0 <= i < genesis_output_spec(payload, false).len() ==> #[trigger] genesis_output_spec(
                payload,
                false,
            )[i] == prefixed_hex(payload)[i] as u8,
        genesis_output_spec(payload, false)[0] == 48,
        genesis_output_spec(payload, false)[1] == 120,
{
    lemma_prefixed_hex_ascii(payload);
    is_ascii_chars_encode_utf8(prefixed_hex(payload));
}

/// The value of an ASCII lowercase hexadecimal digit, or -1 for any other
/// byte.
pub open spec fn hex_digit_value(c: u8) -> int {
    if 48 <= c <= 57 {
        c - 48
    } else if 97 <= c <= 102 {
        c - 87
    } else {
        -1
    }
}

/// The digit written for a value below sixteen reads back as that value.
pub proof fn lemma_hex_digit_value(n: int)
    requires
        0 <= n < 16,
    ensures
        hex_digit_value(hex_digit(n) as u8) == n,
{
}

/// Law: with `raw` set, an export writes the payload unchanged, whatever its
/// length.
pub proof fn law_raw_output_is_payload(payload: Seq<u8>)
    ensures
        genesis_output_spec(payload, true) == payload,
{
}

/// Law: a hexadecimal export is `0x` followed, for each payload byte in
/// order, by two lowercase hexadecimal digits that read back as that byte:
/// the high digit times sixteen plus the low digit.
pub proof fn law_hex_output_decodes(payload: Seq<u8>)
    ensures
        genesis_output_spec(payload, false).len() == 2 + 2 * payload.len(),
        genesis_output_spec(payload, false)[0] == 48,
        genesis_output_spec(payload, false)[1] == 120,
        forall|j: int|
            0 <= j < payload.len() ==> {
                let hi = hex_digit_value(#[trigger] genesis_output_spec(payload, false)[2 + 2 * j]);
                let lo = hex_digit_value(genesis_output_spec(payload, false)[3 + 2 * j]);
                &&& 0 <= hi < 16
                &&& 0 <= lo < 16
                &&& 16 * hi + lo == payload[j]
            },
{
    law_genesis_output_hex_form(payload);
    let out = genesis_output_spec(payload, false);
    let t = prefixed_hex(payload);
    assert forall|j: int| 0 <= j < payload.len() implies {
        let hi = hex_digit_value(#[trigger] out[2 + 2 * j]);
        let lo = hex_digit_value(out[3 + 2 * j]);
        &&& 0 <= hi < 16
        &&& 0 <= lo < 16
        &&& 16 * hi + lo == payload[j]
    } by {
        assert((2 * j) / 2 == j && (2 * j) % 2 == 0);
        assert((2 * j + 1) / 2 == j && (2 * j + 1) % 2 == 1);
        assert(t[2 + 2 * j] == lower_hex(payload)[2 * j]);
        assert(t[3 + 2 * j] == lower_hex(payload)[2 * j + 1]);
        assert(lower_hex(payload)[2 * j] == hex_digit(payload[j] as int / 16));
        assert(lower_hex(payload)[2 * j + 1] == hex_digit(payload[j] as int % 16));
        assert(out[2 + 2 * j] == t[2 + 2 * j] as u8);
        assert(out[3 + 2 * j] == t[3 + 2 * j] as u8);
        lemma_hex_digit_value(payload[j] as int / 16);
        lemma_hex_digit_value(payload[j] as int % 16);
        assert(payload[j] as int == 16 * (payload[j] as int / 16) + payload[j] as int % 16);
    }
}

} // verus!
