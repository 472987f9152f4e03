//! Base64 encodings of the telemetry values that the simulator sends.

use vstd::prelude::*;
use vstd::string::StringSliceAdditionalSpecFns;

verus! {

/// The character of the standard base64 alphabet for a six-bit value.
pub open spec fn base64_symbol(v: int) -> char {
    if v < 26 {
        (65 + v) as char
    } else if v < 52 {
        (97 + (v - 26)) as char
    } else if v < 62 {
        (48 + (v - 52)) as char
    } else if v == 62 {
        '+'
    } else {
        '/'
    }
}

/// Standard base64 (alphabet `A-Za-z0-9+/`, `=` padding) of a byte sequence.
pub open spec fn base64_standard(bytes: Seq<u8>) -> Seq<char>
    decreases bytes.len(),
{
    if bytes.len() == 0 {
        seq![]
    } else if bytes.len() == 1 {
        let b0 = bytes[0] as int;
        seq![base64_symbol(b0 / 4), base64_symbol((b0 % 4) * 16), '=', '=']
    } else if bytes.len() == 2 {
        let b0 = bytes[0] as int;
        let b1 = bytes[1] as int;
        seq![
            base64_symbol(b0 / 4),
            base64_symbol((b0 % 4) * 16 + b1 / 16),
            base64_symbol((b1 % 16) * 4),
            '=',
        ]
    } else {
        let b0 = bytes[0] as int;
        let b1 = bytes[1] as int;
        let b2 = bytes[2] as int;
        seq![
            base64_symbol(b0 / 4),
            base64_symbol((b0 % 4) * 16 + b1 / 16),
            base64_symbol((b1 % 16) * 4 + b2 / 64),
            base64_symbol(b2 % 64),
        ] + base64_standard(bytes.subrange(3, bytes.len() as int))
    }
}

/// Calls `base64::encode` (version 0.13), which encodes with the `STANDARD`
/// configuration: standard alphabet and `=` padding. The contract claims that
/// the returned text is exactly that encoding of the input bytes. A slice never
/// holds more than `isize::MAX` bytes, so the size computation inside the crate
/// cannot overflow and the call does not panic.
#[verifier::external_body]
pub(crate) fn encode_base64(bytes: &[u8]) -> (text: String)
    ensures
        text@ == base64_standard(bytes@),
{
    base64::encode(bytes)
}

/// The value of a 32-bit signed integer read as an unsigned one (two's complement).
pub open spec fn twos_complement(value: i32) -> nat {
    if value >= 0 {
        value as nat
    } else {
        (value + 0x1_0000_0000) as nat
    }
}

/// Big-endian bytes of a 32-bit signed integer.
pub open spec fn be_bytes(value: i32) -> Seq<u8> {
    let u = twos_complement(value);
    seq![
        (u / 0x100_0000) as u8,
        ((u / 0x1_0000) % 256) as u8,
        ((u / 256) % 256) as u8,
        (u % 256) as u8,
    ]
}

/// Little-endian bytes of a 32-bit signed integer.
pub open spec fn le_bytes(value: i32) -> Seq<u8> {
    let u = twos_complement(value);
    seq![
        (u % 256) as u8,
        ((u / 256) % 256) as u8,
        ((u / 0x1_0000) % 256) as u8,
        (u / 0x100_0000) as u8,
    ]
}

fn unsigned_of(value: i32) -> (u: u32)
    ensures
        u == twos_complement(value),
{
    if value >= 0 {
        value as u32
    } else {
        (value as i64 + 0x1_0000_0000i64) as u32
    }
}

/// The four big-endian bytes of `value`.
pub fn to_be_bytes(value: i32) -> (bytes: Vec<u8>)
    ensures
        bytes@ == be_bytes(value),
{
    let u = unsigned_of(value);
    let bytes = vec![
        (u / 0x100_0000) as u8,
        ((u / 0x1_0000) % 256) as u8,
        ((u / 256) % 256) as u8,
        (u % 256) as u8,
    ];
    assert(bytes@ =~= be_bytes(value));
    bytes
}

/// The four little-endian bytes of `value`.
pub fn to_le_bytes(value: i32) -> (bytes: Vec<u8>)
    ensures
        bytes@ == le_bytes(value),
{
    let u = unsigned_of(value);
    let bytes = vec![
        (u % 256) as u8,
        ((u / 256) % 256) as u8,
        ((u / 0x1_0000) % 256) as u8,
        (u / 0x100_0000) as u8,
    ];
    assert(bytes@ =~= le_bytes(value));
    bytes
}

/// Base64 of the big-endian bytes of an integer field value.
pub fn int_to_base64(value: i32) -> (text: String)
    ensures
        text@ == base64_standard(be_bytes(value)),
{
    let bytes = to_be_bytes(value);
    encode_base64(bytes.as_slice())
}

/// Base64 of a boolean field value: one byte, 1 for true and 0 for false.
pub fn bool_to_base64(value: bool) -> (text: String)
    ensures
        text@ == base64_standard(seq![if value { 1u8 } else { 0u8 }]),
{
    let bytes: Vec<u8> = if value {
        vec![1u8]
    } else {
        vec![0u8]
    };
    assert(bytes@ =~= seq![if value { 1u8 } else { 0u8 }]);
    encode_base64(bytes.as_slice())
}

/// Base64 of a fixed-point value (a measure multiplied by 10000 and rounded):
/// its four little-endian bytes.
pub fn fixed_point_to_base64(value: i32) -> (text: String)
    ensures
        text@ == base64_standard(le_bytes(value)),
{
    let bytes = to_le_bytes(value);
    encode_base64(bytes.as_slice())
}

/// Base64 of the UTF-8 bytes of a text.
pub fn text_to_base64(text: &str) -> (encoded: String)
    ensures
        encoded@ == base64_standard(text.spec_bytes()),
{
    encode_base64(text.as_bytes())
}

/// The six-bit value of a character of the standard base64 alphabet.
pub open spec fn sextet(c: char) -> int {
    if 'A' <= c && c <= 'Z' {
        c as int - 65
    } else if 'a' <= c && c <= 'z' {
        c as int - 97 + 26
    } else if '0' <= c && c <= '9' {
        c as int - 48 + 52
    } else if c == '+' {
        62
    } else {
        63
    }
}

/// The four bytes that eight base64 characters (the last two `=`) decode to.
pub open spec fn decode_four(e: Seq<char>) -> Seq<int> {
    seq![
        sextet(e[0]) * 4 + sextet(e[1]) / 16,
        (sextet(e[1]) % 16) * 16 + sextet(e[2]) / 4,
        (sextet(e[2]) % 4) * 64 + sextet(e[3]),
        sextet(e[4]) * 4 + sextet(e[5]) / 16,
    ]
}

/// The signed 32-bit integer of four big-endian bytes.
pub open spec fn from_be(b: Seq<int>) -> int {
    let u = b[0] * 0x100_0000 + b[1] * 0x1_0000 + b[2] * 256 + b[3];
    if u >= 0x8000_0000 {
        u - 0x1_0000_0000
    } else {
        u
    }
}

proof fn lemma_sextet(k: int)
    requires
        0 <= k < 64,
    ensures
        sextet(base64_symbol(k)) == k,
{
}

proof fn lemma_bytes_recombine(u: int)
    requires
        0 <= u < 0x1_0000_0000,
    ensures
        (u / 0x100_0000) * 0x100_0000 + ((u / 0x1_0000) % 256) * 0x1_0000 + ((u / 256) % 256) * 256
            + u % 256 == u,
        u / 0x100_0000 < 256,
{
    assert((u / 0x100_0000) * 0x100_0000 + ((u / 0x1_0000) % 256) * 0x1_0000 + ((u / 256) % 256)
        * 256 + u % 256 == u) by (nonlinear_arith)
        requires
            0 <= u < 0x1_0000_0000,
    {
        assert(u == (u / 256) * 256 + u % 256);
        let a = u / 256;
        assert(a == (a / 256) * 256 + a % 256);
        assert(a / 256 == u / 0x1_0000);
        let b = u / 0x1_0000;
        assert(b == (b / 256) * 256 + b % 256);
        assert(b / 256 == u / 0x100_0000);
    }
    assert(u / 0x100_0000 < 256) by (nonlinear_arith)
        requires
            0 <= u < 0x1_0000_0000,
    ;
}

/// The base64 text of an integer field has eight characters, the last two
/// `=`, and decodes to the four big-endian bytes of the value, which give the
/// value back.
pub proof fn law_int_field_round_trip(value: i32)
    ensures
        base64_standard(be_bytes(value)).len() == 8,
        base64_standard(be_bytes(value))[6] == '=',
        base64_standard(be_bytes(value))[7] == '=',
        decode_four(base64_standard(be_bytes(value))) == be_bytes(value).map_values(|b: u8| b as int),
        from_be(decode_four(base64_standard(be_bytes(value)))) == value,
{
    let b = be_bytes(value);
    let rest = b.subrange(3, 4);
    assert(rest.len() == 1);
    assert(rest[0] == b[3]);
    reveal_with_fuel(base64_standard, 2);
    let e = base64_standard(b);
    let b0 = b[0] as int;
    let b1 = b[1] as int;
    let b2 = b[2] as int;
    let b3 = b[3] as int;
    assert(e =~= seq![
        base64_symbol(b0 / 4),
        base64_symbol((b0 % 4) * 16 + b1 / 16),
        base64_symbol((b1 % 16) * 4 + b2 / 64),
        base64_symbol(b2 % 64),
        base64_symbol(b3 / 4),
        base64_symbol((b3 % 4) * 16),
        '=',
        '=',
    ]);
    lemma_sextet(b0 / 4);
    lemma_sextet((b0 % 4) * 16 + b1 / 16);
    lemma_sextet((b1 % 16) * 4 + b2 / 64);
    lemma_sextet(b2 % 64);
    lemma_sextet(b3 / 4);
    lemma_sextet((b3 % 4) * 16);
    assert(decode_four(e) =~= b.map_values(|x: u8| x as int));
    let u = twos_complement(value);
    lemma_bytes_recombine(u as int);
}

} // verus!
