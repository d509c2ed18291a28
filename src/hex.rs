//! Hexadecimal text: `0x`-prefixed byte strings, 16-bit addresses, and the
//! rendering of response bytes.
use vstd::prelude::*;

verus! {

/// Value of a hexadecimal digit, either case.
pub open spec fn hex_value(c: char) -> Option<u8> {
    if '0' <= c && c <= '9' {
        Some((c as u32 - '0' as u32) as u8)
    } else if 'a' <= c && c <= 'f' {
        Some((c as u32 - 'a' as u32 + 10) as u8)
    } else if 'A' <= c && c <= 'F' {
        Some((c as u32 - 'A' as u32 + 10) as u8)
    } else {
        None
    }
}

pub open spec fn is_hex_digit(c: char) -> bool {
    hex_value(c) is Some
}

pub open spec fn all_hex_digits(d: Seq<char>) -> bool {
    forall|i: int| 0 <= i < d.len() ==> #[trigger] is_hex_digit(d[i])
}

/// Whether `s` starts with `0x`.
pub open spec fn has_hex_prefix(s: Seq<char>) -> bool {
    s.len() >= 2 && s[0] == '0' && s[1] == 'x'
}

/// The byte written by the two digits `h` and `l`.
pub open spec fn pair_value(h: char, l: char) -> u8 {
    (hex_value(h).unwrap() * 16 + hex_value(l).unwrap()) as u8
}

/// The bytes written by an even number of hexadecimal digits, two per byte.
pub open spec fn hex_pairs(d: Seq<char>) -> Seq<u8> {
    Seq::new(d.len() / 2, |k: int| pair_value(d[2 * k], d[2 * k + 1]))
}

/// Why a hexadecimal byte string was rejected.
#[derive(Clone, Copy, Debug, PartialEq, Eq)]
pub enum HexError {
    MissingPrefix,
    Empty,
    OddLength,
    InvalidDigit,
}

impl HexError {
    pub open spec fn spec_message(self) -> Seq<char> {
        match self {
            HexError::MissingPrefix => "Hex string must start with '0x'"@,
            HexError::Empty => "Hex string after '0x' is empty"@,
            HexError::OddLength => "Hex string must have an even number of digits"@,
            HexError::InvalidDigit => "Hex string holds a character that is not a hex digit"@,
        }
    }

    /// A human-readable description of the error.
    pub fn message(&self) -> (r: String)
        ensures
            r@ == self.spec_message(),
    {
        match self {
            HexError::MissingPrefix => String::from_str("Hex string must start with '0x'"),
            HexError::Empty => String::from_str("Hex string after '0x' is empty"),
            HexError::OddLength => String::from_str("Hex string must have an even number of digits"),
            HexError::InvalidDigit => String::from_str(
                "Hex string holds a character that is not a hex digit",
            ),
        }
    }
}

/// What parsing `s` as a `0x`-prefixed byte string gives.
pub open spec fn parse_hex_spec(s: Seq<char>) -> Result<Seq<u8>, HexError> {
    if !has_hex_prefix(s) {
        Err(HexError::MissingPrefix)
    } else if s.len() == 2 {
        Err(HexError::Empty)
    } else if (s.len() - 2) % 2 != 0 {
        Err(HexError::OddLength)
    } else if !all_hex_digits(s.skip(2)) {
        Err(HexError::InvalidDigit)
    } else {
        Ok(hex_pairs(s.skip(2)))
    }
}

/// Whether `s` starts with `0x`.
pub fn starts_with_hex_prefix(s: &str) -> (r: bool)
    ensures
        r == has_hex_prefix(s@),
{
    let n = s.unicode_len();
    n >= 2 && s.get_char(0) == '0' && s.get_char(1) == 'x'
}

/// Value of one hexadecimal digit.
pub fn hex_digit_value(c: char) -> (r: Option<u8>)
    ensures
        r == hex_value(c),
{
    if '0' <= c && c <= '9' {
        Some((c as u32 - '0' as u32) as u8)
    } else if 'a' <= c && c <= 'f' {
        Some((c as u32 - 'a' as u32 + 10) as u8)
    } else if 'A' <= c && c <= 'F' {
        Some((c as u32 - 'A' as u32 + 10) as u8)
    } else {
        None
    }
}

/// Parses a `0x`-prefixed string of hexadecimal digit pairs into bytes.
pub fn parse_hex(hex_str: &str) -> (r: Result<Vec<u8>, HexError>)
    ensures
        match parse_hex_spec(hex_str@) {
            Ok(b) => r is Ok && r->Ok_0@ == b,
            Err(e) => r == Err::<Vec<u8>, HexError>(e),
        },
{
    let n = hex_str.unicode_len();
    if n < 2 || hex_str.get_char(0) != '0' || hex_str.get_char(1) != 'x' {
        return Err(HexError::MissingPrefix);
    }
    if n == 2 {
        return Err(HexError::Empty);
    }
    if (n - 2) % 2 != 0 {
        return Err(HexError::OddLength);
    }
    let ghost d = hex_str@.skip(2);
    let mut bytes: Vec<u8> = Vec::new();
    let mut i: usize = 2;
    while i < n
        invariant
            n == hex_str@.len(),
            n > 2,
            has_hex_prefix(hex_str@),
            d == hex_str@.skip(2),
            2 <= i <= n,
            (n - 2) % 2 == 0,
            (i - 2) % 2 == 0,
            bytes@.len() == (i - 2) / 2,
            forall|j: int| 0 <= j < i - 2 ==> #[trigger] is_hex_digit(d[j]),
            forall|k: int|
                0 <= k < bytes@.len() ==> bytes@[k] == #[trigger] pair_value(d[2 * k], d[2 * k + 1]),
        decreases n - i,
    {
        let h = hex_digit_value(hex_str.get_char(i));
        let l = hex_digit_value(hex_str.get_char(i + 1));
        match (h, l) {
            (Some(hv), Some(lv)) => {
                bytes.push(hv * 16 + lv);
                i = i + 2;
            },
            _ => {
                proof {
                    if h is None {
                        assert(d[i - 2] == hex_str@[i as int]);
                        assert(!is_hex_digit(d[i - 2]));
                    } else {
                        assert(d[i - 1] == hex_str@[i + 1]);
                        assert(!is_hex_digit(d[i - 1]));
                    }
                    assert(!all_hex_digits(d));
                }
                return Err(HexError::InvalidDigit);
            },
        }
    }
    assert(all_hex_digits(d));
    assert(bytes@ == hex_pairs(d));
    Ok(bytes)
}

/// Parses a `0x`-prefixed string of hexadecimal digit pairs into bytes, with the
/// error given as a message.
pub fn parse_hex_string_to_bytes(hex_str: &str) -> (r: Result<Vec<u8>, String>)
    ensures
        match parse_hex_spec(hex_str@) {
            Ok(b) => r is Ok && r->Ok_0@ == b,
            Err(e) => r is Err && r->Err_0@ == e.spec_message(),
        },
{
    match parse_hex(hex_str) {
        Ok(b) => Ok(b),
        Err(e) => Err(e.message()),
    }
}

/// The number written by the hexadecimal digits `d`, most significant first.
pub open spec fn hex_number(d: Seq<char>) -> nat
    decreases d.len(),
{
    if d.len() == 0 {
        0
    } else {
        hex_number(d.drop_last()) * 16 + hex_value(d.last()).unwrap_or(0) as nat
    }
}

/// What parsing `s` as a `0x`-prefixed 16-bit number gives: at least one digit,
/// only hexadecimal digits, and a value that fits in 16 bits.
pub open spec fn parse_address_spec(s: Seq<char>) -> Option<u16> {
    if has_hex_prefix(s) && s.len() > 2 && all_hex_digits(s.skip(2)) && hex_number(s.skip(2))
        <= 0xFFFF {
        Some(hex_number(s.skip(2)) as u16)
    } else {
        None
    }
}

/// Parses a `0x`-prefixed hexadecimal 16-bit number such as a logical address.
pub fn parse_hex_address(s: &str) -> (r: Option<u16>)
    ensures
        r == parse_address_spec(s@),
{
    let n = s.unicode_len();
    if n <= 2 || s.get_char(0) != '0' || s.get_char(1) != 'x' {
        return None;
    }
    let ghost d = s@.skip(2);
    // Saturates at 0x10000: once the value is too large it stays too large.
    let mut acc: u32 = 0;
    let mut i: usize = 2;
    while i < n
        invariant
            n == s@.len(),
            n > 2,
            has_hex_prefix(s@),
            d == s@.skip(2),
            2 <= i <= n,
            acc <= 0x10000,
            acc == if hex_number(d.subrange(0, i - 2)) <= 0xFFFF {
                hex_number(d.subrange(0, i - 2))
            } else {
                0x10000
            },
            forall|j: int| 0 <= j < i - 2 ==> #[trigger] is_hex_digit(d[j]),
        decreases n - i,
    {
        let c = s.get_char(i);
        assert(c == d[i - 2]);
        match hex_digit_value(c) {
            Some(v) => {
                let ghost prev = d.subrange(0, i - 2);
                let ghost next = d.subrange(0, i - 1);
                assert(next.drop_last() == prev);
                assert(next.last() == c);
                acc = acc * 16 + v as u32;
                if acc > 0xFFFF {
                    acc = 0x10000;
                }
                i = i + 1;
            },
            None => {
                assert(!is_hex_digit(d[i - 2]));
                assert(!all_hex_digits(d));
                return None;
            },
        }
    }
    assert(d.subrange(0, n - 2) == d);
    assert(all_hex_digits(d));
    if acc > 0xFFFF {
        None
    } else {
        Some(acc as u16)
    }
}

/// The upper-case hexadecimal digit of `n`, for `n < 16`.
pub open spec fn hex_char(n: int) -> char {
    "0123456789ABCDEF"@[n]
}

/// Two upper-case hexadecimal digits per byte, most significant digit first.
pub open spec fn upper_hex(b: Seq<u8>) -> Seq<char> {
    Seq::new(
        2 * b.len(),
        |i: int|
            if i % 2 == 0 {
                hex_char(b[i / 2] as int / 16)
            } else {
                hex_char(b[i / 2] as int % 16)
            },
    )
}

fn append_hex_digit(text: &mut String, n: u8)
    requires
        n < 16,
    ensures
        final(text)@ == old(text)@.push(hex_char(n as int)),
{
    let table = "0123456789ABCDEF";
    proof {
        reveal_strlit("0123456789ABCDEF");
    }
    let digit = table.substring_ascii(n as usize, n as usize + 1);
    assert(digit@ == seq![hex_char(n as int)]);
    text.append(digit);
}

/// Renders bytes as `0x` followed by two upper-case hexadecimal digits per byte.
pub fn hex_text(bytes: &[u8]) -> (r: String)
    ensures
        r@ == seq!['0', 'x'] + upper_hex(bytes@),
{
    let mut text = String::from_str("0x");
    proof {
        reveal_strlit("0x");
    }
    let mut i: usize = 0;
    while i < bytes.len()
        invariant
            0 <= i <= bytes@.len(),
            text@.len() == 2 + 2 * i,
            text@[0] == '0',
            text@[1] == 'x',
            forall|j: int| 0 <= j < 2 * i ==> #[trigger] text@[2 + j] == upper_hex(bytes@)[j],
        decreases bytes@.len() - i,
    {
        let b = bytes[i];
        append_hex_digit(&mut text, b / 16);
        append_hex_digit(&mut text, b % 16);
        proof {
            assert forall|j: int| 0 <= j < 2 * (i + 1) implies #[trigger] text@[2 + j] == upper_hex(
                bytes@,
            )[j] by {
                if j >= 2 * i {
                    assert(j / 2 == i);
                }
            }
        }
        i = i + 1;
    }
    let ghost expected = seq!['0', 'x'] + upper_hex(bytes@);
    assert forall|j: int| 0 <= j < text@.len() implies text@[j] == expected[j] by {
        if j >= 2 {
            assert(text@[2 + (j - 2)] == upper_hex(bytes@)[j - 2]);
        }
    }
    assert(text@ =~= expected);
    text
}

} // verus!
