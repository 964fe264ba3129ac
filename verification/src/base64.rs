//! Standard base64 (RFC 4648) with `=` padding, used to carry blobs as text.
//!
//! The encoding is stated character by character: output position `j`
//! belongs to input group `j / 4`, and is either a letter of the alphabet
//! chosen by six bits of that group, or the padding sign.

use vstd::prelude::*;

verus! {

/// `String::push` appends one character to the end of the string.
pub assume_specification[ std::string::String::push ](s: &mut std::string::String, ch: char)
    ensures
        final(s)@ == old(s)@.push(ch),
;

/// Length of the encoding of `n` bytes: four characters for every started
/// group of three bytes.
pub open spec fn encoded_len(n: nat) -> nat {
    4 * ((n + 2) / 3)
}

/// The letter that stands for the six-bit value `v`.
pub open spec fn alphabet(v: int) -> char {
    if v < 26 {
        (v + 65) as char
    } else if v < 52 {
        (v + 71) as char
    } else if v < 62 {
        (v - 4) as char
    } else if v == 62 {
        '+'
    } else {
        '/'
    }
}

/// Byte `k` of `bytes`, or zero past the end: the final group is filled up
/// with zero bits.
pub open spec fn byte_or_zero(bytes: Seq<u8>, k: int) -> int {
    if 0 <= k < bytes.len() {
        bytes[k] as int
    } else {
        0
    }
}

/// The six bits that output position `j` carries.
pub open spec fn sextet(bytes: Seq<u8>, j: int) -> int {
    let g = j / 4;
    let b0 = byte_or_zero(bytes, 3 * g);
    let b1 = byte_or_zero(bytes, 3 * g + 1);
    let b2 = byte_or_zero(bytes, 3 * g + 2);
    if j % 4 == 0 {
        b0 / 4
    } else if j % 4 == 1 {
        (b0 % 4) * 16 + b1 / 16
    } else if j % 4 == 2 {
        (b1 % 16) * 4 + b2 / 64
    } else {
        b2 % 64
    }
}

/// Whether output position `j` holds padding: the third or fourth place of
/// a group whose second or third byte is missing.
pub open spec fn is_padding(bytes: Seq<u8>, j: int) -> bool {
    let g = j / 4;
    (j % 4 == 2 && 3 * g + 1 >= bytes.len()) || (j % 4 == 3 && 3 * g + 2 >= bytes.len())
}

/// The character at output position `j`.
pub open spec fn encoded_char(bytes: Seq<u8>, j: int) -> char {
    if is_padding(bytes, j) {
        '='
    } else {
        alphabet(sextet(bytes, j))
    }
}

/// The base64 text of `bytes`.
pub open spec fn encoded(bytes: Seq<u8>) -> Seq<char> {
    Seq::new(encoded_len(bytes.len()), |j: int| encoded_char(bytes, j))
}

/// The letter for a six-bit value.
fn letter(v: u8) -> (c: char)
    requires
        v < 64,
    ensures
        c == alphabet(v as int),
{
    if v < 26 {
        (v + 65) as char
    } else if v < 52 {
        (v + 71) as char
    } else if v < 62 {
        (v - 4) as char
    } else if v == 62 {
        '+'
    } else {
        '/'
    }
}

/// Splits three bytes into their four six-bit values.
fn split_group(b0: u8, b1: u8, b2: u8) -> (s: (u8, u8, u8, u8))
    ensures
        s.0 == b0 / 4,
        s.1 == (b0 % 4) * 16 + b1 / 16,
        s.2 == (b1 % 16) * 4 + b2 / 64,
        s.3 == b2 % 64,
        s.0 < 64 && s.1 < 64 && s.2 < 64 && s.3 < 64,
{
    let s0: u8 = b0 >> 2;
    let s1: u8 = ((b0 & 0x03) << 4) | (b1 >> 4);
    let s2: u8 = ((b1 & 0x0f) << 2) | (b2 >> 6);
    let s3: u8 = b2 & 0x3f;
    assert(b0 >> 2 == b0 / 4 && b0 >> 2 < 64) by (bit_vector);
    assert(((b0 & 0x03) << 4) | (b1 >> 4) == (b0 % 4) * 16 + b1 / 16 && (((b0 & 0x03) << 4) | (b1
        >> 4)) < 64) by (bit_vector);
    assert(((b1 & 0x0f) << 2) | (b2 >> 6) == (b1 % 16) * 4 + b2 / 64 && (((b1 & 0x0f) << 2) | (b2
        >> 6)) < 64) by (bit_vector);
    assert(b2 & 0x3f == b2 % 64 && b2 & 0x3f < 64) by (bit_vector);
    (s0, s1, s2, s3)
}

/// A group of four characters that continues a correct beginning of the
/// encoding gives a correct, longer beginning.
proof fn lemma_group_appended(bytes: Seq<u8>, before: Seq<char>, after: Seq<char>, g: int)
    requires
        0 <= g,
        before.len() == 4 * g,
        after.len() == 4 * g + 4,
        forall|j: int| 0 <= j < 4 * g ==> before[j] == encoded_char(bytes, j) && after[j]
            == before[j],
        after[4 * g] == alphabet(byte_or_zero(bytes, 3 * g) / 4),
        after[4 * g + 1] == alphabet(
            (byte_or_zero(bytes, 3 * g) % 4) * 16 + byte_or_zero(bytes, 3 * g + 1) / 16,
        ),
        after[4 * g + 2] == (if 3 * g + 1 >= bytes.len() {
            '='
        } else {
            alphabet(
                (byte_or_zero(bytes, 3 * g + 1) % 16) * 4 + byte_or_zero(bytes, 3 * g + 2) / 64,
            )
        }),
        after[4 * g + 3] == (if 3 * g + 2 >= bytes.len() {
            '='
        } else {
            alphabet(byte_or_zero(bytes, 3 * g + 2) % 64)
        }),
    ensures
        forall|j: int| 0 <= j < after.len() ==> after[j] == encoded_char(bytes, j),
{
    assert forall|j: int| 0 <= j < after.len() implies after[j] == encoded_char(bytes, j) by {
        if j >= 4 * g {
            assert(j / 4 == g);
        }
    }
}

/// Encodes `input` as base64 text.
pub fn encode(input: &[u8]) -> (text: String)
    ensures
        text@ == encoded(input@),
{
    let n: usize = input.len();
    let mut text = String::new();
    let mut i: usize = 0;
    while i < n
        invariant
            n == input@.len(),
            i <= n,
            i % 3 == 0 || i == n,
            text@.len() == 4 * ((i + 2) / 3),
            forall|j: int| 0 <= j < text@.len() ==> text@[j] == encoded_char(input@, j),
        decreases n - i,
    {
        let left: usize = n - i;
        let b0: u8 = input[i];
        let b1: u8 = if left > 1 {
            input[i + 1]
        } else {
            0
        };
        let b2: u8 = if left > 2 {
            input[i + 2]
        } else {
            0
        };
        let s = split_group(b0, b1, b2);
        let ghost before = text@;
        let ghost g = (i / 3) as int;
        assert(i == 3 * g && before.len() == 4 * g);
        let c0 = letter(s.0);
        let c1 = letter(s.1);
        text.push(c0);
        text.push(c1);
        let c2 = if left > 1 {
            letter(s.2)
        } else {
            '='
        };
        let c3 = if left > 2 {
            letter(s.3)
        } else {
            '='
        };
        text.push(c2);
        text.push(c3);
        proof {
            assert(text@ == before.push(c0).push(c1).push(c2).push(c3));
            assert(byte_or_zero(input@, 3 * g) == b0);
            assert(byte_or_zero(input@, 3 * g + 1) == b1);
            assert(byte_or_zero(input@, 3 * g + 2) == b2);
            lemma_group_appended(input@, before, text@, g);
        }
        i = if left > 2 {
            i + 3
        } else {
            n
        };
        assert((i + 2) / 3 == g + 1);
    }
    assert(text@ =~= encoded(input@));
    text
}

/// The six-bit value that a letter of the alphabet stands for.
pub open spec fn letter_value(c: char) -> int {
    if 'A' <= c <= 'Z' {
        c as int - 65
    } else if 'a' <= c <= 'z' {
        c as int - 71
    } else if '0' <= c <= '9' {
        c as int + 4
    } else if c == '+' {
        62
    } else {
        63
    }
}

/// How many bytes a padded base64 text stands for: three for each group of
/// four characters, less one for each padding sign at the end.
pub open spec fn decoded_len(text: Seq<char>) -> int {
    if text.len() < 4 {
        0
    } else {
        (text.len() / 4) * 3 - (if text[text.len() - 1] == '=' {
            1int
        } else {
            0int
        }) - (if text[text.len() - 2] == '=' {
            1int
        } else {
            0int
        })
    }
}

/// Byte `k` of what a base64 text stands for.
pub open spec fn decoded_byte(text: Seq<char>, k: int) -> int {
    let g = k / 3;
    let v0 = letter_value(text[4 * g]);
    let v1 = letter_value(text[4 * g + 1]);
    let v2 = letter_value(text[4 * g + 2]);
    let v3 = letter_value(text[4 * g + 3]);
    if k % 3 == 0 {
        v0 * 4 + v1 / 16
    } else if k % 3 == 1 {
        (v1 % 16) * 16 + v2 / 4
    } else {
        (v2 % 4) * 64 + v3
    }
}

/// The bytes that a base64 text stands for.
pub open spec fn decoded(text: Seq<char>) -> Seq<u8> {
    Seq::new(decoded_len(text) as nat, |k: int| decoded_byte(text, k) as u8)
}

/// Every six-bit value has a letter of its own, and none of the letters is
/// the padding sign.
pub proof fn lemma_alphabet_is_invertible(v: int)
    requires
        0 <= v < 64,
    ensures
        letter_value(alphabet(v)) == v,
        alphabet(v) != '=',
{
}

/// The encoding is a whole number of four-character groups, and the padding
/// sign stands exactly at the places that no input byte reaches: nowhere
/// for a length divisible by three, else in the last one or two places.
pub proof fn lemma_encoded_is_padded(bytes: Seq<u8>, j: int)
    requires
        0 <= j < encoded(bytes).len(),
    ensures
        encoded(bytes).len() == 4 * ((bytes.len() + 2) / 3),
        encoded(bytes).len() % 4 == 0,
        encoded(bytes)[j] == '=' <==> is_padding(bytes, j),
        is_padding(bytes, j) <==> j >= encoded(bytes).len() - (3 - bytes.len() % 3) % 3,
{
    lemma_sextet_in_range(bytes, j);
    lemma_alphabet_is_invertible(sextet(bytes, j));
}

/// The value at every output position fits in six bits.
pub proof fn lemma_sextet_in_range(bytes: Seq<u8>, j: int)
    requires
        0 <= j,
    ensures
        0 <= sextet(bytes, j) < 64,
{
}

/// Three bytes can be put together again from their four six-bit values.
pub proof fn lemma_group_is_rebuilt(b0: int, b1: int, b2: int)
    requires
        0 <= b0 < 256,
        0 <= b1 < 256,
        0 <= b2 < 256,
    ensures
        (b0 / 4) * 4 + ((b0 % 4) * 16 + b1 / 16) / 16 == b0,
        (((b0 % 4) * 16 + b1 / 16) % 16) * 16 + ((b1 % 16) * 4 + b2 / 64) / 4 == b1,
        (((b1 % 16) * 4 + b2 / 64) % 4) * 64 + b2 % 64 == b2,
{
}

/// The letter at a place that is not padding stands for the six bits of
/// that place.
pub proof fn lemma_letter_is_read_back(bytes: Seq<u8>, j: int)
    requires
        0 <= j < encoded(bytes).len(),
        !is_padding(bytes, j),
    ensures
        letter_value(encoded(bytes)[j]) == sextet(bytes, j),
{
    lemma_sextet_in_range(bytes, j);
    lemma_alphabet_is_invertible(sextet(bytes, j));
}

/// Decoding gives back each single byte.
pub proof fn lemma_byte_is_read_back(bytes: Seq<u8>, k: int)
    requires
        0 <= k < bytes.len(),
    ensures
        decoded_byte(encoded(bytes), k) == bytes[k],
{
    let g = k / 3;
    let text = encoded(bytes);
    let b0 = byte_or_zero(bytes, 3 * g);
    let b1 = byte_or_zero(bytes, 3 * g + 1);
    let b2 = byte_or_zero(bytes, 3 * g + 2);
    lemma_group_is_rebuilt(b0, b1, b2);
    assert(4 * g + 3 < text.len());
    assert((4 * g) / 4 == g && (4 * g) % 4 == 0);
    assert((4 * g + 1) / 4 == g && (4 * g + 1) % 4 == 1);
    assert((4 * g + 2) / 4 == g && (4 * g + 2) % 4 == 2);
    assert((4 * g + 3) / 4 == g && (4 * g + 3) % 4 == 3);
    lemma_letter_is_read_back(bytes, 4 * g);
    lemma_letter_is_read_back(bytes, 4 * g + 1);
    assert(sextet(bytes, 4 * g) == b0 / 4);
    assert(sextet(bytes, 4 * g + 1) == (b0 % 4) * 16 + b1 / 16);
    if k % 3 == 0 {
        assert(bytes[k] == b0);
    } else if k % 3 == 1 {
        lemma_letter_is_read_back(bytes, 4 * g + 2);
        assert(sextet(bytes, 4 * g + 2) == (b1 % 16) * 4 + b2 / 64);
        assert(bytes[k] == b1);
    } else {
        lemma_letter_is_read_back(bytes, 4 * g + 2);
        lemma_letter_is_read_back(bytes, 4 * g + 3);
        assert(sextet(bytes, 4 * g + 2) == (b1 % 16) * 4 + b2 / 64);
        assert(sextet(bytes, 4 * g + 3) == b2 % 64);
        assert(bytes[k] == b2);
    }
}

/// Decoding finds the length of what was encoded.
pub proof fn lemma_length_is_read_back(bytes: Seq<u8>)
    ensures
        decoded_len(encoded(bytes)) == bytes.len(),
{
    let text = encoded(bytes);
    if bytes.len() > 0 {
        lemma_encoded_is_padded(bytes, text.len() - 1);
        lemma_encoded_is_padded(bytes, text.len() - 2);
    }
}

/// The encoding loses nothing: decoding the text gives the bytes back.
pub proof fn lemma_decoded_inverts_encoded(bytes: Seq<u8>)
    ensures
        decoded(encoded(bytes)) == bytes,
{
    lemma_length_is_read_back(bytes);
    assert forall|k: int| 0 <= k < bytes.len() implies decoded_byte(encoded(bytes), k)
        == bytes[k] by {
        lemma_byte_is_read_back(bytes, k);
    }
    assert(decoded(encoded(bytes)) =~= bytes);
}

/// Two byte strings with the same encoding are the same byte string.
pub proof fn lemma_encoding_is_injective(a: Seq<u8>, b: Seq<u8>)
    requires
        encoded(a) == encoded(b),
    ensures
        a == b,
{
    lemma_decoded_inverts_encoded(a);
    lemma_decoded_inverts_encoded(b);
}

} // verus!
