//! Field elements written in hexadecimal.

use vstd::prelude::*;
use vstd::string::*;
use vstd::utf8::*;

use crate::text::{chars_of, joined};

verus! {

/// Why a text is no hexadecimal number.
#[derive(Clone, Copy, Debug, PartialEq, Eq, Structural)]
pub enum FromHexError {
    /// A byte that is no hexadecimal digit, and where it stands.
    InvalidHexCharacter { c: char, index: usize },
    /// There is an odd number of digits.
    OddLength,
    /// The number of digits does not fit.
    InvalidStringLength,
}

/// The value of a hexadecimal digit in either case.
pub open spec fn hex_value(digit: u8) -> Option<u8> {
    if 48 <= digit <= 57 {
        Some((digit - 48) as u8)
    } else if 97 <= digit <= 102 {
        Some((digit - 87) as u8)
    } else if 65 <= digit <= 70 {
        Some((digit - 55) as u8)
    } else {
        None
    }
}

/// Where the first byte that is no digit stands, from some place on.
pub open spec fn first_invalid(digits: Seq<u8>, from: int) -> int
    decreases digits.len() - from,
{
    if from >= digits.len() || hex_value(digits[from]) is None {
        from
    } else {
        first_invalid(digits, from + 1)
    }
}

/// The bytes that pairs of digits write.
pub open spec fn hex_bytes(digits: Seq<u8>) -> Seq<u8> {
    Seq::new(
        digits.len() / 2,
        |i: int|
            (16 * hex_value(digits[2 * i])->0 + hex_value(digits[2 * i + 1])->0) as u8,
    )
}

/// What a hexadecimal text decodes to: a byte for each pair of digits.
pub open spec fn hex_decoded(digits: Seq<u8>) -> Result<Seq<u8>, FromHexError> {
    if digits.len() % 2 != 0 {
        Err(FromHexError::OddLength)
    } else if first_invalid(digits, 0) < digits.len() {
        Err(
            FromHexError::InvalidHexCharacter {
                c: digits[first_invalid(digits, 0)] as char,
                index: first_invalid(digits, 0) as usize,
            },
        )
    } else {
        Ok(hex_bytes(digits))
    }
}

/// Decodes a hexadecimal text with `hex::decode`: a byte for each pair of
/// digits of either case, the high one first. An odd number of bytes fails, and
/// else the first byte that is no digit does.
#[verifier::external_body]
fn decode_hex(text: &str) -> (r: Result<Vec<u8>, FromHexError>)
    ensures
        match r {
            Ok(bytes) => hex_decoded(encode_utf8(text@)) == Ok::<Seq<u8>, FromHexError>(bytes@),
            Err(e) => hex_decoded(encode_utf8(text@)) == Err::<Seq<u8>, FromHexError>(e),
        },
{
    hex::decode(text).map_err(|e| match e {
        hex::FromHexError::InvalidHexCharacter { c, index } =>
            FromHexError::InvalidHexCharacter { c, index },
        hex::FromHexError::OddLength => FromHexError::OddLength,
        hex::FromHexError::InvalidStringLength => FromHexError::InvalidStringLength,
    })
}

/// A text without the `0x` at its start, however often it stands there.
pub open spec fn without_prefix(hex: Seq<char>) -> Seq<char>
    decreases hex.len(),
{
    if hex.len() >= 2 && hex[0] == '0' && hex[1] == 'x' {
        without_prefix(hex.skip(2))
    } else {
        hex
    }
}

/// The digits of a field element, in pairs: an odd number of them is filled up
/// with a zero in front.
pub open spec fn felt_digits(hex: Seq<char>) -> Seq<char> {
    let digits = without_prefix(hex);
    if encode_utf8(digits).len() % 2 == 1 {
        "0"@ + digits
    } else {
        digits
    }
}

/// The bytes of a field element that is written in hexadecimal.
pub open spec fn felt_bytes(hex: Seq<char>) -> Result<Seq<u8>, FromHexError> {
    hex_decoded(encode_utf8(felt_digits(hex)))
}

/// Takes the `0x` off a text.
fn strip_prefix(hex: &str) -> (r: String)
    ensures
        r@ == without_prefix(hex@),
{
    let cs: Vec<char> = chars_of(hex);
    let n: usize = cs.len();
    let mut start: usize = 0;
    assert(hex@.skip(0) =~= hex@);
    while n - start >= 2 && cs[start] == '0' && cs[start + 1] == 'x'
        invariant
            start <= n,
            n == cs.len(),
            cs@ == hex@,
            without_prefix(hex@.skip(start as int)) == without_prefix(hex@),
        decreases n - start,
    {
        assert(hex@.skip(start as int).skip(2) =~= hex@.skip(start + 2));
        start += 2;
    }
    assert(hex@.skip(start as int) =~= hex@.subrange(start as int, n as int));
    hex.substring_char(start, n).to_owned()
}

/// Decodes a field element that is written in hexadecimal, with or without
/// `0x` in front.
pub fn decode_hex_felt(hex: &str) -> (r: Result<Vec<u8>, FromHexError>)
    ensures
        match r {
            Ok(bytes) => felt_bytes(hex@) == Ok::<Seq<u8>, FromHexError>(bytes@),
            Err(e) => felt_bytes(hex@) == Err::<Seq<u8>, FromHexError>(e),
        },
{
    let digits: String = strip_prefix(hex);
    let digits: String = if digits.as_str().as_bytes().len() % 2 == 1 {
        joined("0", digits.as_str())
    } else {
        digits
    };
    decode_hex(digits.as_str())
}

/// Law: a field element never fails for an odd number of digits.
pub proof fn felt_digits_are_paired(hex: Seq<char>)
    ensures
        encode_utf8(felt_digits(hex)).len() % 2 == 0,
        felt_bytes(hex) != Err::<Seq<u8>, FromHexError>(FromHexError::OddLength),
{
    let digits = without_prefix(hex);
    reveal_strlit("0");
    let filled = "0"@ + digits;
    assert(filled.drop_first() =~= digits);
    assert(encode_scalar('0' as u32).len() == 1);
}

/// Law: `0x` in front of a field element makes no difference, not even where
/// one stands already.
pub proof fn prefix_makes_no_difference(hex: Seq<char>)
    ensures
        felt_bytes("0x"@ + hex) == felt_bytes(hex),
{
    reveal_strlit("0x");
    assert(("0x"@ + hex).skip(2) =~= hex);
}

/// The lower-case digits of some bytes.
pub open spec fn hex_text(bytes: Seq<u8>) -> Seq<char> {
    Seq::new(
        2 * bytes.len(),
        |i: int|
            hex_digit(
                if i % 2 == 0 {
                    bytes[i / 2] / 16
                } else {
                    bytes[i / 2] % 16
                },
            ),
    )
}

/// The lower-case digit of a value below sixteen.
pub open spec fn hex_digit(value: u8) -> char {
    if value < 10 {
        (48 + value) as char
    } else {
        (87 + value) as char
    }
}

/// The prime of the Starknet field.
pub open spec fn field_prime() -> nat {
    0x800000000000011000000000000000000000000000000000000000000000001nat
}

/// The number that some bytes write, the highest first.
pub open spec fn bytes_number(bytes: Seq<u8>) -> nat
    decreases bytes.len(),
{
    if bytes.len() == 0 {
        0
    } else {
        256 * bytes_number(bytes.drop_last()) + bytes.last() as nat
    }
}

/// The lower-case digits of a number, without leading zeros.
pub open spec fn hex_number(n: nat) -> Seq<char>
    decreases n,
{
    if n < 16 {
        seq![hex_digit(n as u8)]
    } else {
        hex_number(n / 16).push(hex_digit((n % 16) as u8))
    }
}

/// How a field element, given by its bytes from the highest on, is written:
/// as a number of the field, without leading zeros.
pub open spec fn felt_text(bytes: Seq<u8>) -> Seq<char> {
    "0x"@ + hex_number(bytes_number(bytes) % field_prime())
}

/// Law: the bytes of a field element that is written in full are read back,
/// with or without `0x` in front.
pub proof fn written_felt_is_read_back(bytes: Seq<u8>)
    ensures
        felt_bytes(hex_text(bytes)) == Ok::<Seq<u8>, FromHexError>(bytes),
        felt_bytes("0x"@ + hex_text(bytes)) == Ok::<Seq<u8>, FromHexError>(bytes),
{
    let text = hex_text(bytes);
    let digits = encode_utf8(text);
    assert forall|i: int| 0 <= i < text.len() implies 48 <= #[trigger] text[i] as u32 <= 102
        && hex_value(text[i] as u8) == Some(
        if i % 2 == 0 {
            (bytes[i / 2] / 16) as u8
        } else {
            (bytes[i / 2] % 16) as u8
        },
    ) by {
        assert(0 <= i / 2 < bytes.len());
        assert(bytes[i / 2] / 16 < 16);
        assert(bytes[i / 2] % 16 < 16);
    }
    assert(is_ascii_chars(text));
    is_ascii_chars_encode_utf8(text);
    assert(text.len() >= 2 ==> text[1] != 'x');
    assert(without_prefix(text) == text);
    assert(felt_digits(text) == text);
    assert forall|i: int| 0 <= i < digits.len() implies hex_value(#[trigger] digits[i]) is Some by {
        assert(text[i] as u8 == digits[i]);
    }
    lemma_all_valid(digits, 0);
    assert forall|i: int| 0 <= i < bytes.len() implies #[trigger] hex_bytes(digits)[i]
        == bytes[i] by {
        assert(text[2 * i] as u8 == digits[2 * i]);
        assert(text[2 * i + 1] as u8 == digits[2 * i + 1]);
        assert(2 * i / 2 == i && (2 * i + 1) / 2 == i);
        assert(bytes[i] == 16 * (bytes[i] / 16) + bytes[i] % 16);
    }
    assert(hex_bytes(digits) =~= bytes);
    prefix_makes_no_difference(text);
}

/// Where every byte is a digit, none is invalid.
proof fn lemma_all_valid(digits: Seq<u8>, from: int)
    requires
        0 <= from <= digits.len(),
        forall|i: int| from <= i < digits.len() ==> hex_value(#[trigger] digits[i]) is Some,
    ensures
        first_invalid(digits, from) == digits.len(),
    decreases digits.len() - from,
{
    if from < digits.len() {
        lemma_all_valid(digits, from + 1);
    }
}

/// The value of a character as a hexadecimal digit of either case, if it is one.
pub open spec fn digit_number(c: char) -> Option<nat> {
    if '0' <= c <= '9' {
        Some((c as u32 - '0' as u32) as nat)
    } else if 'a' <= c <= 'f' {
        Some((10 + c as u32 - 'a' as u32) as nat)
    } else if 'A' <= c <= 'F' {
        Some((10 + c as u32 - 'A' as u32) as nat)
    } else {
        None
    }
}

/// Whether a text is made of hexadecimal digits alone.
pub open spec fn is_hexadecimal(text: Seq<char>) -> bool {
    forall|i: int| 0 <= i < text.len() ==> digit_number(#[trigger] text[i]) is Some
}

/// The number that hexadecimal digits write.
pub open spec fn text_number(text: Seq<char>) -> nat
    decreases text.len(),
{
    if text.len() == 0 {
        0
    } else {
        16 * text_number(text.drop_last()) + digit_number(text.last())->0
    }
}

/// Law: decoding keeps the number. Any number of hexadecimal digits, odd or
/// even, in either case, with or without `0x` in front, decodes to bytes that
/// write the same number, in half as many bytes, rounded up.
pub proof fn decoding_keeps_the_number(digits: Seq<char>)
    requires
        is_hexadecimal(digits),
    ensures
        felt_bytes(digits) matches Ok(bytes) && bytes_number(bytes) == text_number(digits)
            && bytes.len() == (digits.len() + 1) / 2,
        felt_bytes("0x"@ + digits) == felt_bytes(digits),
{
    prefix_makes_no_difference(digits);
    assert(digits.len() >= 2 ==> digit_number(digits[1]) is Some);
    assert(without_prefix(digits) == digits);
    lemma_hexadecimal_bytes(digits);
    if digits.len() % 2 == 0 {
        lemma_pairs_keep_the_number(digits);
    } else {
        reveal_strlit("0");
        let filled = "0"@ + digits;
        assert(is_hexadecimal(filled)) by {
            assert forall|i: int| 0 <= i < filled.len() implies digit_number(
                #[trigger] filled[i],
            ) is Some by {
                if i > 0 {
                    assert(filled[i] == digits[i - 1]);
                }
            }
        }
        lemma_hexadecimal_bytes(filled);
        lemma_pairs_keep_the_number(filled);
        lemma_leading_zero(digits);
    }
}

/// Law: a field element as the node writes it, without leading zeros, is read
/// back as the same number of the field. Its text starts with `0x`, and its
/// first digit is a zero for the number zero alone.
pub proof fn compact_felt_is_read_back(bytes: Seq<u8>)
    ensures
        felt_bytes(felt_text(bytes)) matches Ok(read) && bytes_number(read) == bytes_number(bytes)
            % field_prime() && read.len() == (felt_text(bytes).len() - 1) / 2,
        felt_text(bytes).len() >= 3,
        felt_text(bytes)[0] == '0' && felt_text(bytes)[1] == 'x',
        felt_text(bytes)[2] == '0' <==> bytes_number(bytes) % field_prime() == 0,
        is_hexadecimal(felt_text(bytes).skip(2)),
        text_number(felt_text(bytes).skip(2)) == bytes_number(bytes) % field_prime(),
{
    let n = bytes_number(bytes) % field_prime();
    lemma_hex_number(n);
    decoding_keeps_the_number(hex_number(n));
    reveal_strlit("0x");
    assert(felt_text(bytes).skip(2) =~= hex_number(n));
}

/// Law: a text that does not start with `0x` decodes exactly when each of its
/// bytes is a hexadecimal digit. Otherwise the failure names the first byte that
/// is none, and where it stands once an odd number of bytes was filled up.
pub proof fn only_digits_are_decoded(text: Seq<char>)
    requires
        text.len() < 2 || text[0] != '0' || text[1] != 'x',
    ensures
        felt_bytes(text) is Ok <==> (forall|i: int|
            0 <= i < encode_utf8(text).len() ==> digit_number(
                #[trigger] encode_utf8(text)[i] as char,
            ) is Some),
        felt_bytes(text) matches Err(e) ==> exists|i: int|
            {
                &&& 0 <= i < encode_utf8(text).len()
                &&& digit_number(#[trigger] encode_utf8(text)[i] as char) is None
                &&& forall|j: int|
                    0 <= j < i ==> digit_number(#[trigger] encode_utf8(text)[j] as char) is Some
                &&& e == (FromHexError::InvalidHexCharacter {
                    c: encode_utf8(text)[i] as char,
                    index: (i + encode_utf8(text).len() % 2) as usize,
                })
            },
{
    let bytes = encode_utf8(text);
    let shift = (bytes.len() % 2) as int;
    felt_digits_are_paired(text);
    assert(without_prefix(text) == text);
    reveal_strlit("0");
    let filled = "0"@ + text;
    assert(filled.drop_first() =~= text);
    lemma_zero_byte();
    assert(encode_utf8(filled) =~= seq![48u8] + bytes);
    let digits = encode_utf8(felt_digits(text));
    assert(digits.len() == bytes.len() + shift);
    assert(shift == 1 ==> digits[0] == 48);
    assert forall|i: int| 0 <= i < bytes.len() implies #[trigger] bytes[i] == digits[i + shift] by {
    }
    lemma_digit_values();
    let first = first_invalid(digits, 0);
    lemma_first_invalid(digits, 0);
    if first < digits.len() {
        let i = first - shift;
        assert(bytes[i] == digits[first]);
        assert(digit_number(bytes[i] as char) is None);
        assert forall|j: int| 0 <= j < i implies digit_number(
            #[trigger] bytes[j] as char,
        ) is Some by {
            assert(bytes[j] == digits[j + shift]);
        }
    } else {
        assert forall|i: int| 0 <= i < bytes.len() implies digit_number(
            #[trigger] bytes[i] as char,
        ) is Some by {
            assert(bytes[i] == digits[i + shift]);
        }
    }
}

/// The byte of a zero.
proof fn lemma_zero_byte()
    ensures
        encode_scalar('0' as u32) == seq![48u8],
{
    assert(leading_byte_width_1(48) == 48u8) by (bit_vector);
    assert(encode_scalar(48) =~= seq![48u8]);
}

/// A byte has the value of its character.
proof fn lemma_digit_values()
    ensures
        forall|b: u8| #![trigger hex_value(b)] #![trigger b as char]
            (hex_value(b) is Some <==> digit_number(b as char) is Some) && (hex_value(b) is Some
                ==> hex_value(b)->0 == digit_number(b as char)->0),
{
}

/// `first_invalid` points behind digits only, and at none.
proof fn lemma_first_invalid(digits: Seq<u8>, from: int)
    requires
        0 <= from <= digits.len(),
    ensures
        from <= first_invalid(digits, from) <= digits.len(),
        forall|i: int|
            from <= i < first_invalid(digits, from) ==> hex_value(#[trigger] digits[i]) is Some,
        first_invalid(digits, from) < digits.len() ==> hex_value(
            digits[first_invalid(digits, from)],
        ) is None,
    decreases digits.len() - from,
{
    if from < digits.len() && hex_value(digits[from]) is Some {
        lemma_first_invalid(digits, from + 1);
    }
}

/// Hexadecimal digits are encoded in a byte each, with the same values.
proof fn lemma_hexadecimal_bytes(text: Seq<char>)
    requires
        is_hexadecimal(text),
    ensures
        encode_utf8(text).len() == text.len(),
        forall|i: int|
            0 <= i < text.len() ==> hex_value(#[trigger] encode_utf8(text)[i]) is Some && hex_value(
                encode_utf8(text)[i],
            )->0 == digit_number(text[i])->0,
        first_invalid(encode_utf8(text), 0) == text.len(),
{
    assert forall|i: int| 0 <= i < text.len() implies '\0' <= #[trigger] text[i] <= '\u{7f}' by {
        assert(digit_number(text[i]) is Some);
    }
    assert(is_ascii_chars(text));
    is_ascii_chars_encode_utf8(text);
    assert forall|i: int| 0 <= i < text.len() implies hex_value(
        #[trigger] encode_utf8(text)[i],
    ) is Some && hex_value(encode_utf8(text)[i])->0 == digit_number(text[i])->0 by {
        assert(text[i] as u8 == encode_utf8(text)[i]);
        assert(digit_number(text[i]) is Some);
    }
    lemma_all_valid(encode_utf8(text), 0);
}

/// Pairs of digits write the same number as the bytes they stand for.
proof fn lemma_pairs_keep_the_number(text: Seq<char>)
    requires
        is_hexadecimal(text),
        text.len() % 2 == 0,
    ensures
        bytes_number(hex_bytes(encode_utf8(text))) == text_number(text),
        hex_bytes(encode_utf8(text)).len() == text.len() / 2,
    decreases text.len(),
{
    lemma_hexadecimal_bytes(text);
    let digits = encode_utf8(text);
    let bytes = hex_bytes(digits);
    if text.len() > 0 {
        let n = text.len() as int;
        let one = text.drop_last();
        let front = one.drop_last();
        assert forall|i: int| 0 <= i < front.len() implies digit_number(
            #[trigger] front[i],
        ) is Some by {
            assert(front[i] == text[i]);
        }
        lemma_hexadecimal_bytes(front);
        lemma_pairs_keep_the_number(front);
        let front_digits = encode_utf8(front);
        assert(bytes.drop_last() =~= hex_bytes(front_digits)) by {
            assert forall|i: int| 0 <= i < n / 2 - 1 implies bytes[i] == hex_bytes(
                front_digits,
            )[i] by {
                assert(text[2 * i] == front[2 * i] && text[2 * i + 1] == front[2 * i + 1]);
                assert(hex_value(digits[2 * i]) is Some);
                assert(hex_value(digits[2 * i + 1]) is Some);
                assert(hex_value(front_digits[2 * i]) is Some);
                assert(hex_value(front_digits[2 * i + 1]) is Some);
            }
        }
        let i = n / 2 - 1;
        assert(2 * i == n - 2);
        assert(hex_value(digits[n - 2]) is Some && hex_value(digits[n - 1]) is Some);
        assert(digit_number(text[n - 2])->0 < 16 && digit_number(text[n - 1])->0 < 16);
        assert(bytes.last() == 16 * digit_number(text[n - 2])->0 + digit_number(text[n - 1])->0);
        assert(one.last() == text[n - 2]);
        assert(text_number(text) == 16 * text_number(one) + digit_number(text[n - 1])->0);
        assert(text_number(one) == 16 * text_number(front) + digit_number(text[n - 2])->0);
    }
}

/// A zero in front adds nothing to a number.
proof fn lemma_leading_zero(text: Seq<char>)
    ensures
        text_number("0"@ + text) == text_number(text),
    decreases text.len(),
{
    reveal_strlit("0");
    let filled = "0"@ + text;
    if text.len() == 0 {
        assert(filled.drop_last() =~= Seq::<char>::empty());
        assert(text_number(Seq::<char>::empty()) == 0);
    } else {
        lemma_leading_zero(text.drop_last());
        assert(filled.drop_last() =~= "0"@ + text.drop_last());
    }
}

/// The digits of a number are hexadecimal, write it, and start with a zero for
/// zero alone.
proof fn lemma_hex_number(n: nat)
    ensures
        hex_number(n).len() > 0,
        is_hexadecimal(hex_number(n)),
        text_number(hex_number(n)) == n,
        hex_number(n)[0] == '0' <==> n == 0,
    decreases n,
{
    let text = hex_number(n);
    if n < 16 {
        assert(text.drop_last() =~= Seq::<char>::empty());
        assert(text_number(Seq::<char>::empty()) == 0);
        assert(digit_number(text[0]) == Some(n));
    } else {
        lemma_hex_number(n / 16);
        let front = hex_number(n / 16);
        assert(text.drop_last() =~= front);
        assert(digit_number(text.last()) == Some((n % 16) as nat));
        assert forall|i: int| 0 <= i < text.len() implies digit_number(#[trigger] text[i]) is Some by {
            if i < front.len() {
                assert(text[i] == front[i]);
            }
        }
        assert(text[0] == front[0]);
    }
}

}
