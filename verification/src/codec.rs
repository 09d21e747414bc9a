//! Bytes as text: hexadecimal, base64 and bech32.
use base64::Engine;
use bech32::ToBase32;
use vstd::prelude::*;

verus! {

/// The lower-case hexadecimal digit that stands for `v`.
pub open spec fn hex_digit(v: nat) -> char {
    if v < 10 {
        (0x30 + v) as char
    } else {
        (0x57 + v) as char
    }
}

/// Whether `c` is a hexadecimal digit, in either case.
pub open spec fn is_hex_digit(c: char) -> bool {
    '0' <= c <= '9' || 'a' <= c <= 'f' || 'A' <= c <= 'F'
}

/// What a hexadecimal digit stands for.
pub open spec fn hex_digit_value(c: char) -> nat {
    if c <= '9' {
        (c as nat - 0x30) as nat
    } else if c <= 'F' {
        (c as nat - 0x37) as nat
    } else {
        (c as nat - 0x57) as nat
    }
}

/// Bytes in lower-case hexadecimal, two digits a byte, the high one first.
pub open spec fn hex_text(b: Seq<u8>) -> Seq<char> {
    Seq::new(
        2 * b.len(),
        |i: int|
            if i % 2 == 0 {
                hex_digit(b[i / 2] as nat / 16)
            } else {
                hex_digit(b[i / 2] as nat % 16)
            },
    )
}

/// Whether a text is made of hexadecimal digits only.
pub open spec fn all_hex_digits(s: Seq<char>) -> bool {
    forall|i: int| 0 <= i < s.len() ==> is_hex_digit(#[trigger] s[i])
}

/// The bytes that a text in hexadecimal stands for: `None` unless it is an even number of
/// hexadecimal digits.
pub open spec fn hex_bytes(s: Seq<char>) -> Option<Seq<u8>> {
    if s.len() % 2 == 0 && all_hex_digits(s) {
        Some(
            Seq::new(
                s.len() / 2,
                |i: int|
                    (16 * hex_digit_value(s[2 * i]) + hex_digit_value(s[2 * i + 1])) as u8,
            ),
        )
    } else {
        None
    }
}

/// `hex::encode`: two lower-case digits for each byte.
#[verifier::external_body]
pub(crate) fn hex_encode(b: &[u8]) -> (r: String)
    ensures
        r@ == hex_text(b@),
{
    hex::encode(b)
}

/// `hex::decode`: the bytes that an even number of digits in either case stand for, an error
/// (here `None`) for any other text.
#[verifier::external_body]
pub(crate) fn hex_decode(s: &str) -> (r: Option<Vec<u8>>)
    ensures
        match r {
            Some(b) => hex_bytes(s@) == Some(b@),
            None => hex_bytes(s@) is None,
        },
{
    hex::decode(s).ok()
}

/// Hexadecimal text is made of hexadecimal digits.
pub proof fn lemma_hex_text_digits(b: Seq<u8>)
    ensures
        all_hex_digits(hex_text(b)),
{
}

/// Bytes written in hexadecimal read back as the same bytes.
pub proof fn law_hex_round_trip(b: Seq<u8>)
    ensures
        hex_bytes(hex_text(b)) == Some(b),
{
    let s = hex_text(b);
    lemma_hex_text_digits(b);
    assert forall|i: int| 0 <= i < b.len() implies 16 * hex_digit_value(s[2 * i]) + hex_digit_value(
        s[2 * i + 1],
    ) == #[trigger] b[i] by {
        assert(s[2 * i] == hex_digit(b[i] as nat / 16));
        assert(s[2 * i + 1] == hex_digit(b[i] as nat % 16));
    }
    assert(hex_bytes(s).unwrap() =~= b);
}

/// The character that stands for six bits in base64.
pub open spec fn base64_char(v: nat) -> char {
    if v < 26 {
        (0x41 + v) as char
    } else if v < 52 {
        (0x61 + v - 26) as char
    } else if v < 62 {
        (0x30 + v - 52) as char
    } else if v == 62 {
        '+'
    } else {
        '/'
    }
}

/// Bytes in base64, with the standard alphabet and padding: each three bytes are four
/// characters of six bits, and `=` fills up what is missing in the last four.
pub open spec fn base64_text(b: Seq<u8>) -> Seq<char>
    decreases b.len(),
{
    if b.len() == 0 {
        Seq::empty()
    } else {
        let b0 = b[0] as nat;
        let b1 = if b.len() > 1 {
            b[1] as nat
        } else {
            0
        };
        let b2 = if b.len() > 2 {
            b[2] as nat
        } else {
            0
        };
        let c2 = if b.len() > 1 {
            base64_char(b1 % 16 * 4 + b2 / 64)
        } else {
            '='
        };
        let c3 = if b.len() > 2 {
            base64_char(b2 % 64)
        } else {
            '='
        };
        let group = seq![base64_char(b0 / 4), base64_char(b0 % 4 * 16 + b1 / 16), c2, c3];
        if b.len() > 3 {
            group + base64_text(b.skip(3))
        } else {
            group
        }
    }
}

/// `base64::engine::general_purpose::STANDARD.encode`: base64 with the standard alphabet and
/// padding. The length of the result does not overflow: no slice is longer than `isize::MAX`.
#[verifier::external_body]
pub(crate) fn base64_encode(b: &[u8]) -> (r: String)
    ensures
        r@ == base64_text(b@),
{
    base64::engine::general_purpose::STANDARD.encode(b)
}

/// Whether a text can stand before the separator in bech32 as it is: 1 to 83 visible ASCII
/// characters, none of them upper-case.
pub open spec fn is_lower_prefix(s: Seq<char>) -> bool {
    &&& 1 <= s.len() <= 83
    &&& forall|i: int|
        0 <= i < s.len() ==> '!' <= #[trigger] s[i] <= '~' && !('A' <= s[i] <= 'Z')
}

/// What the bit at place `j` of a byte weighs, the highest bit first.
pub open spec fn bit_weight(j: int) -> nat {
    if j == 0 {
        128
    } else if j == 1 {
        64
    } else if j == 2 {
        32
    } else if j == 3 {
        16
    } else if j == 4 {
        8
    } else if j == 5 {
        4
    } else if j == 6 {
        2
    } else {
        1
    }
}

/// The bit at place `k` of bytes, the highest bit of the first byte first; 0 behind the last.
pub open spec fn data_bit(data: Seq<u8>, k: int) -> nat {
    if 0 <= k < 8 * data.len() {
        data[k / 8] as nat / bit_weight(k % 8) % 2
    } else {
        0
    }
}

/// The `i`th five bits of bytes, as a number.
pub open spec fn five_bits(data: Seq<u8>, i: int) -> nat {
    16 * data_bit(data, 5 * i) + 8 * data_bit(data, 5 * i + 1) + 4 * data_bit(data, 5 * i + 2) + 2
        * data_bit(data, 5 * i + 3) + data_bit(data, 5 * i + 4)
}

/// The characters that stand for five bits in bech32.
pub open spec fn bech32_alphabet() -> Seq<char> {
    "qpzry9x8gf2tvdw0s3jn54khce6mua7l"@
}

/// Bytes in bech32: one character for each five bits, with zeros behind the last bit.
pub open spec fn bech32_data(data: Seq<u8>) -> Seq<char> {
    Seq::new((8 * data.len() + 4) / 5, |i: int| bech32_alphabet()[five_bits(data, i) as int])
}

/// The checksum that bech32 puts behind `data` under the human-readable part `prefix`.
pub uninterp spec fn bech32_checksum(prefix: Seq<char>, data: Seq<u8>) -> Seq<char>;

/// The bech32 text of `data` under the human-readable part `prefix`.
pub open spec fn bech32_text(prefix: Seq<char>, data: Seq<u8>) -> Seq<char> {
    prefix + seq!['1'] + bech32_data(data) + bech32_checksum(prefix, data)
}

/// `bech32::encode` of `ToBase32::to_base32`, variant `Bech32`. The text is the prefix, the
/// separator `1`, one character for each five bits of the data, and a checksum, which is six
/// characters of the same alphabet. A prefix as `requires` has it is never refused.
#[verifier::external_body]
pub(crate) fn bech32_encode(prefix: &str, data: &[u8]) -> (r: String)
    requires
        is_lower_prefix(prefix@),
    ensures
        r@ == prefix@ + seq!['1'] + bech32_data(data@) + bech32_checksum(prefix@, data@),
        r@.len() == prefix@.len() + 1 + (8 * data@.len() + 4) / 5 + 6,
        forall|i: int|
            prefix@.len() + 1 <= i < r@.len() ==> bech32_alphabet().contains(#[trigger] r@[i]),
{
    bech32::encode(prefix, data.to_base32(), bech32::Variant::Bech32).expect("bech32 encode")
}

/// The place of a character in the bech32 alphabet.
spec fn bech32_value(c: char) -> nat {
    if c == 'q' {
        0
    } else if c == 'p' {
        1
    } else if c == 'z' {
        2
    } else if c == 'r' {
        3
    } else if c == 'y' {
        4
    } else if c == '9' {
        5
    } else if c == 'x' {
        6
    } else if c == '8' {
        7
    } else if c == 'g' {
        8
    } else if c == 'f' {
        9
    } else if c == '2' {
        10
    } else if c == 't' {
        11
    } else if c == 'v' {
        12
    } else if c == 'd' {
        13
    } else if c == 'w' {
        14
    } else if c == '0' {
        15
    } else if c == 's' {
        16
    } else if c == '3' {
        17
    } else if c == 'j' {
        18
    } else if c == 'n' {
        19
    } else if c == '5' {
        20
    } else if c == '4' {
        21
    } else if c == 'k' {
        22
    } else if c == 'h' {
        23
    } else if c == 'c' {
        24
    } else if c == 'e' {
        25
    } else if c == '6' {
        26
    } else if c == 'm' {
        27
    } else if c == 'u' {
        28
    } else if c == 'a' {
        29
    } else if c == '7' {
        30
    } else {
        31
    }
}

/// Each character of the bech32 alphabet has its place, and none is an upper-case letter.
proof fn lemma_bech32_alphabet(v: int)
    requires
        0 <= v < 32,
    ensures
        bech32_alphabet().len() == 32,
        bech32_value(bech32_alphabet()[v]) == v,
        !('A' <= bech32_alphabet()[v] <= 'Z'),
{
    reveal_strlit("qpzry9x8gf2tvdw0s3jn54khce6mua7l");
    let s = bech32_alphabet();
    assert(s[0] == 'q');
    assert(s[1] == 'p');
    assert(s[2] == 'z');
    assert(s[3] == 'r');
    assert(s[4] == 'y');
    assert(s[5] == '9');
    assert(s[6] == 'x');
    assert(s[7] == '8');
    assert(s[8] == 'g');
    assert(s[9] == 'f');
    assert(s[10] == '2');
    assert(s[11] == 't');
    assert(s[12] == 'v');
    assert(s[13] == 'd');
    assert(s[14] == 'w');
    assert(s[15] == '0');
    assert(s[16] == 's');
    assert(s[17] == '3');
    assert(s[18] == 'j');
    assert(s[19] == 'n');
    assert(s[20] == '5');
    assert(s[21] == '4');
    assert(s[22] == 'k');
    assert(s[23] == 'h');
    assert(s[24] == 'c');
    assert(s[25] == 'e');
    assert(s[26] == '6');
    assert(s[27] == 'm');
    assert(s[28] == 'u');
    assert(s[29] == 'a');
    assert(s[30] == '7');
    assert(s[31] == 'l');
}

/// No character of the bech32 alphabet is an upper-case letter.
pub proof fn lemma_bech32_lower(c: char)
    requires
        bech32_alphabet().contains(c),
    ensures
        !('A' <= c <= 'Z'),
{
    let v = choose|v: int| 0 <= v < bech32_alphabet().len() && bech32_alphabet()[v] == c;
    lemma_bech32_alphabet(0);
    lemma_bech32_alphabet(v);
}

/// A byte is the sum of its bits.
proof fn lemma_byte_of_bits(b: u8)
    ensures
        b == 128 * (b / 128 % 2) + 64 * (b / 64 % 2) + 32 * (b / 32 % 2) + 16 * (b / 16 % 2) + 8 * (b
            / 8 % 2) + 4 * (b / 4 % 2) + 2 * (b / 2 % 2) + b % 2,
{
    assert(b == 128 * (b / 128 % 2) + 64 * (b / 64 % 2) + 32 * (b / 32 % 2) + 16 * (b / 16 % 2) + 8
        * (b / 8 % 2) + 4 * (b / 4 % 2) + 2 * (b / 2 % 2) + b % 2) by (bit_vector);
}

/// Bytes of one length that have one text in bech32 are the same.
pub proof fn law_bech32_data_injective(a: Seq<u8>, b: Seq<u8>)
    requires
        a.len() == b.len(),
        bech32_data(a) == bech32_data(b),
    ensures
        a == b,
{
    let n = (8 * a.len() + 4) / 5;
    assert forall|k: int| 0 <= k < 8 * a.len() implies data_bit(a, k) == #[trigger] data_bit(
        b,
        k,
    ) by {
        let i = k / 5;
        let (x, y) = (five_bits(a, i), five_bits(b, i));
        assert(0 <= i < n);
        assert(bech32_data(a)[i] == bech32_alphabet()[x as int]);
        assert(bech32_data(b)[i] == bech32_alphabet()[y as int]);
        lemma_bech32_alphabet(x as int);
        lemma_bech32_alphabet(y as int);
        assert(x == y);
        assert(k == 5 * i || k == 5 * i + 1 || k == 5 * i + 2 || k == 5 * i + 3 || k == 5 * i + 4);
    }
    assert forall|j: int| 0 <= j < a.len() implies a[j] == b[j] by {
        lemma_byte_of_bits(a[j]);
        lemma_byte_of_bits(b[j]);
        assert(data_bit(a, 8 * j) == data_bit(b, 8 * j));
        assert(data_bit(a, 8 * j + 1) == data_bit(b, 8 * j + 1));
        assert(data_bit(a, 8 * j + 2) == data_bit(b, 8 * j + 2));
        assert(data_bit(a, 8 * j + 3) == data_bit(b, 8 * j + 3));
        assert(data_bit(a, 8 * j + 4) == data_bit(b, 8 * j + 4));
        assert(data_bit(a, 8 * j + 5) == data_bit(b, 8 * j + 5));
        assert(data_bit(a, 8 * j + 6) == data_bit(b, 8 * j + 6));
        assert(data_bit(a, 8 * j + 7) == data_bit(b, 8 * j + 7));
    }
    assert(a =~= b);
}

} // verus!
