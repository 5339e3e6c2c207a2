//! Hexadecimal notation of byte strings.

use vstd::prelude::*;
use vstd::string::*;

verus! {

/// The lower-case character that stands for the hexadecimal digit `d`.
pub open spec fn hex_digit_char(d: int) -> char {
    if d == 0 {
        '0'
    } else if d == 1 {
        '1'
    } else if d == 2 {
        '2'
    } else if d == 3 {
        '3'
    } else if d == 4 {
        '4'
    } else if d == 5 {
        '5'
    } else if d == 6 {
        '6'
    } else if d == 7 {
        '7'
    } else if d == 8 {
        '8'
    } else if d == 9 {
        '9'
    } else if d == 10 {
        'a'
    } else if d == 11 {
        'b'
    } else if d == 12 {
        'c'
    } else if d == 13 {
        'd'
    } else if d == 14 {
        'e'
    } else {
        'f'
    }
}

/// Value of a hexadecimal digit character of either case.
pub open spec fn hex_value(c: char) -> Option<int> {
    if c == '0' {
        Some(0)
    } else if c == '1' {
        Some(1)
    } else if c == '2' {
        Some(2)
    } else if c == '3' {
        Some(3)
    } else if c == '4' {
        Some(4)
    } else if c == '5' {
        Some(5)
    } else if c == '6' {
        Some(6)
    } else if c == '7' {
        Some(7)
    } else if c == '8' {
        Some(8)
    } else if c == '9' {
        Some(9)
    } else if c == 'a' || c == 'A' {
        Some(10)
    } else if c == 'b' || c == 'B' {
        Some(11)
    } else if c == 'c' || c == 'C' {
        Some(12)
    } else if c == 'd' || c == 'D' {
        Some(13)
    } else if c == 'e' || c == 'E' {
        Some(14)
    } else if c == 'f' || c == 'F' {
        Some(15)
    } else {
        None
    }
}

/// Lower-case hexadecimal notation of `bytes`, two digits for each byte.
pub open spec fn hex_encode(bytes: Seq<u8>) -> Seq<char> {
    Seq::new(
        2 * bytes.len(),
        |i: int|
            if i % 2 == 0 {
                hex_digit_char(bytes[i / 2] as int / 16)
            } else {
                hex_digit_char(bytes[i / 2] as int % 16)
            },
    )
}

/// Whether `digits` is an even number of hexadecimal digits.
pub open spec fn is_hex(digits: Seq<char>) -> bool {
    &&& digits.len() % 2 == 0
    &&& forall|i: int| 0 <= i < digits.len() ==> (#[trigger] hex_value(digits[i])) is Some
}

/// The bytes that `digits` denote, where `digits` is hexadecimal notation.
pub open spec fn hex_bytes(digits: Seq<char>) -> Seq<u8> {
    Seq::new(
        digits.len() / 2,
        |i: int|
            (hex_value(digits[2 * i]).unwrap() * 16 + hex_value(digits[2 * i + 1]).unwrap()) as u8,
    )
}

/// The bytes that `digits` denote, if `digits` is hexadecimal notation.
pub open spec fn hex_decode(digits: Seq<char>) -> Option<Seq<u8>> {
    if is_hex(digits) {
        Some(hex_bytes(digits))
    } else {
        None
    }
}

/// What is written in hexadecimal notation is read back unchanged.
pub proof fn lemma_hex_round_trip(bytes: Seq<u8>)
    ensures
        hex_decode(hex_encode(bytes)) == Some(bytes),
{
    let digits = hex_encode(bytes);
    assert(is_hex(digits));
    assert(hex_bytes(digits) =~= bytes) by {
        assert forall|i: int| 0 <= i < bytes.len() implies hex_bytes(digits)[i] == bytes[i] by {
            let b = bytes[i] as int;
            assert((2 * i) % 2 == 0 && (2 * i) / 2 == i);
            assert((2 * i + 1) % 2 == 1 && (2 * i + 1) / 2 == i);
            assert(hex_value(hex_digit_char(b / 16)) == Some(b / 16));
            assert(hex_value(hex_digit_char(b % 16)) == Some(b % 16));
            assert((b / 16) * 16 + b % 16 == b);
        }
    }
}

fn hex_digit_str(d: u8) -> (s: &'static str)
    requires
        d < 16,
    ensures
        s@ =~= seq![hex_digit_char(d as int)],
{
    proof {
        reveal_strlit("0");
        reveal_strlit("1");
        reveal_strlit("2");
        reveal_strlit("3");
        reveal_strlit("4");
        reveal_strlit("5");
        reveal_strlit("6");
        reveal_strlit("7");
        reveal_strlit("8");
        reveal_strlit("9");
        reveal_strlit("a");
        reveal_strlit("b");
        reveal_strlit("c");
        reveal_strlit("d");
        reveal_strlit("e");
        reveal_strlit("f");
    }
    if d == 0 {
        "0"
    } else if d == 1 {
        "1"
    } else if d == 2 {
        "2"
    } else if d == 3 {
        "3"
    } else if d == 4 {
        "4"
    } else if d == 5 {
        "5"
    } else if d == 6 {
        "6"
    } else if d == 7 {
        "7"
    } else if d == 8 {
        "8"
    } else if d == 9 {
        "9"
    } else if d == 10 {
        "a"
    } else if d == 11 {
        "b"
    } else if d == 12 {
        "c"
    } else if d == 13 {
        "d"
    } else if d == 14 {
        "e"
    } else {
        "f"
    }
}

fn hex_digit_of(c: char) -> (r: Option<u8>)
    ensures
        match r {
            Some(d) => d < 16 && hex_value(c) == Some(d as int),
            None => hex_value(c) is None,
        },
{
    if c == '0' {
        Some(0)
    } else if c == '1' {
        Some(1)
    } else if c == '2' {
        Some(2)
    } else if c == '3' {
        Some(3)
    } else if c == '4' {
        Some(4)
    } else if c == '5' {
        Some(5)
    } else if c == '6' {
        Some(6)
    } else if c == '7' {
        Some(7)
    } else if c == '8' {
        Some(8)
    } else if c == '9' {
        Some(9)
    } else if c == 'a' || c == 'A' {
        Some(10)
    } else if c == 'b' || c == 'B' {
        Some(11)
    } else if c == 'c' || c == 'C' {
        Some(12)
    } else if c == 'd' || c == 'D' {
        Some(13)
    } else if c == 'e' || c == 'E' {
        Some(14)
    } else if c == 'f' || c == 'F' {
        Some(15)
    } else {
        None
    }
}

/// Writes `bytes` in lower-case hexadecimal notation.
pub fn to_hex(bytes: &[u8]) -> (s: String)
    ensures
        s@ == hex_encode(bytes@),
{
    let mut s = String::new();
    let mut i: usize = 0;
    while i < bytes.len()
        invariant
            i <= bytes@.len(),
            s@ =~= hex_encode(bytes@.take(i as int)),
        decreases bytes@.len() - i,
    {
        let b: u8 = bytes[i];
        let ghost before = s@;
        s.append(hex_digit_str(b / 16));
        s.append(hex_digit_str(b % 16));
        proof {
            let next = hex_encode(bytes@.take(i + 1));
            assert(s@.len() == next.len());
            assert forall|k: int| 0 <= k < next.len() implies s@[k] == next[k] by {
                if k < 2 * i {
                    assert(s@[k] == before[k]);
                    assert(bytes@.take(i as int)[k / 2] == bytes@.take(i + 1)[k / 2]);
                } else {
                    assert(k / 2 == i);
                }
            }
        }
        i += 1;
    }
    assert(bytes@.take(i as int) =~= bytes@);
    s
}

/// Reads hexadecimal notation of either case: `None` unless `digits` is an
/// even number of hexadecimal digits.
pub fn from_hex(digits: &str) -> (r: Option<Vec<u8>>)
    ensures
        match r {
            Some(bytes) => hex_decode(digits@) == Some(bytes@),
            None => hex_decode(digits@) is None,
        },
{
    let len: usize = digits.unicode_len();
    if len % 2 != 0 {
        return None;
    }
    let mut bytes: Vec<u8> = Vec::new();
    let mut i: usize = 0;
    while i < len / 2
        invariant
            len == digits@.len(),
            len % 2 == 0,
            i <= len / 2,
            bytes@.len() == i,
            forall|k: int| 0 <= k < 2 * i ==> (#[trigger] hex_value(digits@[k])) is Some,
            forall|k: int| 0 <= k < i ==> bytes@[k] == #[trigger] hex_bytes(digits@)[k],
        decreases len / 2 - i,
    {
        let hi = match hex_digit_of(digits.get_char(2 * i)) {
            Some(d) => d,
            None => {
                return None;
            },
        };
        let lo = match hex_digit_of(digits.get_char(2 * i + 1)) {
            Some(d) => d,
            None => {
                return None;
            },
        };
        bytes.push(hi * 16 + lo);
        proof {
            assert forall|k: int| 0 <= k < 2 * (i + 1) implies (#[trigger] hex_value(
                digits@[k],
            )) is Some by {
                if k == 2 * i {
                } else if k == 2 * i + 1 {
                }
            }
        }
        i += 1;
    }
    assert(is_hex(digits@));
    assert(bytes@ =~= hex_bytes(digits@));
    Some(bytes)
}

/// `text` without the prefix `0x`, where it has it.
pub open spec fn unprefixed(text: Seq<char>) -> Seq<char> {
    if text.len() >= 2 && text[0] == '0' && text[1] == 'x' {
        text.skip(2)
    } else {
        text
    }
}

/// `text` without the prefix `0x`, where it has it.
pub fn strip_prefix(text: &str) -> (r: &str)
    ensures
        r@ == unprefixed(text@),
{
    let len: usize = text.unicode_len();
    if len >= 2 && text.get_char(0) == '0' && text.get_char(1) == 'x' {
        let r = text.substring_char(2, len);
        assert(r@ =~= text@.skip(2));
        r
    } else {
        text
    }
}

/// `bytes` without its leading zero bytes.
pub open spec fn trimmed(bytes: Seq<u8>) -> Seq<u8>
    decreases bytes.len(),
{
    if bytes.len() > 0 && bytes[0] == 0 {
        trimmed(bytes.skip(1))
    } else {
        bytes
    }
}

/// `bytes` without its leading zero bytes.
pub fn trim_zeros(bytes: &[u8]) -> (r: Vec<u8>)
    ensures
        r@ == trimmed(bytes@),
{
    let mut start: usize = 0;
    assert(bytes@.skip(0) =~= bytes@);
    while start < bytes.len() && bytes[start] == 0
        invariant
            start <= bytes@.len(),
            trimmed(bytes@) == trimmed(bytes@.skip(start as int)),
        decreases bytes@.len() - start,
    {
        assert(bytes@.skip(start as int).skip(1) =~= bytes@.skip(start + 1));
        start += 1;
    }
    let r = crate::bytes::copy_range(bytes, start, bytes.len());
    assert(r@ =~= bytes@.skip(start as int));
    r
}

/// The digits `digits` with a zero before them where their number is odd.
pub open spec fn evened(digits: Seq<char>) -> Seq<char> {
    if digits.len() % 2 == 1 {
        seq!['0'] + digits
    } else {
        digits
    }
}

/// The number that `text` denotes in hexadecimal notation, as its bytes
/// from the most significant one, without leading zero bytes: `text` is any
/// number of hexadecimal digits of either case, with or without the prefix
/// `0x`. `None` where `text` is no such notation or the number takes more
/// than `max_bytes` bytes.
pub open spec fn quantity_bytes(text: Seq<char>, max_bytes: nat) -> Option<Seq<u8>> {
    match hex_decode(evened(unprefixed(text))) {
        Some(bytes) => if trimmed(bytes).len() <= max_bytes {
            Some(trimmed(bytes))
        } else {
            None
        },
        None => None,
    }
}

/// Reads a number in hexadecimal notation as `quantity_bytes` says.
pub fn parse_quantity(text: &str, max_bytes: usize) -> (r: Option<Vec<u8>>)
    ensures
        match quantity_bytes(text@, max_bytes as nat) {
            Some(bytes) => r matches Some(got) && got@ == bytes,
            None => r is None,
        },
{
    let digits = strip_prefix(text);
    let decoded = if digits.unicode_len() % 2 == 1 {
        proof {
            reveal_strlit("0");
        }
        let padded = String::from_str("0").concat(digits);
        assert(padded@ =~= evened(digits@));
        from_hex(padded.as_str())
    } else {
        from_hex(digits)
    };
    match decoded {
        Some(bytes) => {
            let short = trim_zeros(bytes.as_slice());
            if short.len() <= max_bytes {
                Some(short)
            } else {
                None
            }
        },
        None => None,
    }
}

/// The bytes that `text` denotes in hexadecimal notation: an even number of
/// hexadecimal digits of either case, with or without the prefix `0x`.
pub open spec fn data_bytes(text: Seq<char>) -> Option<Seq<u8>> {
    hex_decode(unprefixed(text))
}

/// Reads bytes in hexadecimal notation as `data_bytes` says.
pub fn parse_data(text: &str) -> (r: Option<Vec<u8>>)
    ensures
        match data_bytes(text@) {
            Some(bytes) => r matches Some(got) && got@ == bytes,
            None => r is None,
        },
{
    from_hex(strip_prefix(text))
}

} // verus!
