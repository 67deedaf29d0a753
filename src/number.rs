use vstd::prelude::*;
use vstd::utf8::*;

use crate::capability::ParseText;

verus! {

/// Why a decimal number could not be read.
#[derive(Debug, Clone, Copy, PartialEq, Eq)]
pub enum IntError {
    /// The text is empty.
    Empty,
    /// A character other than an ASCII digit, or a sign with no digits after it.
    InvalidDigit,
    /// The value is larger than the target type holds.
    Overflow,
}

pub open spec fn is_digit(b: u8) -> bool {
    0x30 <= b <= 0x39
}

/// Reads decimal digits from left to right onto `acc`, stopping at the first
/// byte that is not a digit or at the first digit that takes the value past `max`.
pub open spec fn scan_digits(b: Seq<u8>, acc: int, max: int) -> Result<int, IntError>
    decreases b.len(),
{
    if b.len() == 0 {
        Ok(acc)
    } else if !is_digit(b[0]) {
        Err(IntError::InvalidDigit)
    } else if acc * 10 + (b[0] - 0x30) > max {
        Err(IntError::Overflow)
    } else {
        scan_digits(b.drop_first(), acc * 10 + (b[0] - 0x30), max)
    }
}

/// The unsigned decimal number that the bytes spell, at most `max`: an
/// optional `+` and then one or more ASCII digits.
pub open spec fn parse_decimal(b: Seq<u8>, max: int) -> Result<int, IntError> {
    if b.len() == 0 {
        Err(IntError::Empty)
    } else if b[0] == 0x2b {
        if b.len() == 1 {
            Err(IntError::InvalidDigit)
        } else {
            scan_digits(b.drop_first(), 0, max)
        }
    } else {
        scan_digits(b, 0, max)
    }
}

/// Reads an unsigned decimal number of at most `max` from the bytes.
pub fn parse_unsigned(b: &[u8], max: u64) -> (r: Result<u64, IntError>)
    ensures
        match parse_decimal(b@, max as int) {
            Ok(v) => r == Ok::<u64, IntError>(v as u64),
            Err(e) => r == Err::<u64, IntError>(e),
        },
        parse_decimal(b@, max as int) matches Ok(v) ==> 0 <= v <= max,
{
    let n = b.len();
    if n == 0 {
        return Err(IntError::Empty);
    }
    let mut i: usize = 0;
    if b[0] == 0x2b {
        if n == 1 {
            return Err(IntError::InvalidDigit);
        }
        i = 1;
        assert(b@.drop_first() =~= b@.subrange(1, n as int));
    } else {
        assert(b@ =~= b@.subrange(0, n as int));
    }
    let mut acc: u64 = 0;
    while i < n
        invariant
            i <= n,
            n == b@.len(),
            acc <= max,
            scan_digits(b@.subrange(i as int, n as int), acc as int, max as int)
                == parse_decimal(b@, max as int),
        decreases n - i,
    {
        let c = b[i];
        assert(b@.subrange(i as int, n as int).drop_first() =~= b@.subrange(i + 1, n as int));
        if c < 0x30 || c > 0x39 {
            return Err(IntError::InvalidDigit);
        }
        let next: u128 = acc as u128 * 10 + (c - 0x30) as u128;
        if next > max as u128 {
            return Err(IntError::Overflow);
        }
        acc = next as u64;
        i = i + 1;
    }
    assert(b@.subrange(n as int, n as int).len() == 0);
    Ok(acc)
}

/// The decimal number the text spells, as `u8`.
impl ParseText for u8 {
    type Err = IntError;

    open spec fn parse_text_ensures(s: Seq<char>, r: Result<u8, IntError>) -> bool {
        match parse_decimal(encode_utf8(s), 255) {
            Ok(v) => r == Ok::<u8, IntError>(v as u8),
            Err(e) => r == Err::<u8, IntError>(e),
        }
    }

    fn parse_text(s: &str) -> (r: Result<u8, IntError>) {
        match parse_unsigned(s.as_bytes(), 255) {
            Ok(v) => Ok(v as u8),
            Err(e) => Err(e),
        }
    }
}

/// The decimal number the text spells, as `u16`.
impl ParseText for u16 {
    type Err = IntError;

    open spec fn parse_text_ensures(s: Seq<char>, r: Result<u16, IntError>) -> bool {
        match parse_decimal(encode_utf8(s), 65535) {
            Ok(v) => r == Ok::<u16, IntError>(v as u16),
            Err(e) => r == Err::<u16, IntError>(e),
        }
    }

    fn parse_text(s: &str) -> (r: Result<u16, IntError>) {
        match parse_unsigned(s.as_bytes(), 65535) {
            Ok(v) => Ok(v as u16),
            Err(e) => Err(e),
        }
    }
}

/// The decimal number the text spells, as `u32`.
impl ParseText for u32 {
    type Err = IntError;

    open spec fn parse_text_ensures(s: Seq<char>, r: Result<u32, IntError>) -> bool {
        match parse_decimal(encode_utf8(s), 4294967295) {
            Ok(v) => r == Ok::<u32, IntError>(v as u32),
            Err(e) => r == Err::<u32, IntError>(e),
        }
    }

    fn parse_text(s: &str) -> (r: Result<u32, IntError>) {
        match parse_unsigned(s.as_bytes(), 4294967295) {
            Ok(v) => Ok(v as u32),
            Err(e) => Err(e),
        }
    }
}

/// The decimal number the text spells, as `u64`.
impl ParseText for u64 {
    type Err = IntError;

    open spec fn parse_text_ensures(s: Seq<char>, r: Result<u64, IntError>) -> bool {
        match parse_decimal(encode_utf8(s), 18446744073709551615) {
            Ok(v) => r == Ok::<u64, IntError>(v as u64),
            Err(e) => r == Err::<u64, IntError>(e),
        }
    }

    fn parse_text(s: &str) -> (r: Result<u64, IntError>) {
        match parse_unsigned(s.as_bytes(), 18446744073709551615) {
            Ok(v) => Ok(v as u64),
            Err(e) => Err(e),
        }
    }
}

} // verus!
