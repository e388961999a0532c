//! Integer parsing and formatting with the semantics of std's `FromStr`,
//! `from_str_radix` and `Display` for integers.
use vstd::prelude::*;

verus! {

pub open spec fn is_digit(c: char) -> bool {
    '0' <= c && c <= '9'
}

pub open spec fn digit_value(c: char) -> nat {
    ((c as u32) - ('0' as u32)) as nat
}

/// Value of the decimal digits `s[a..b]`.
pub open spec fn dec_val(s: Seq<char>, a: int, b: int) -> nat
    decreases b - a,
{
    if b <= a {
        0
    } else {
        dec_val(s, a, b - 1) * 10 + digit_value(s[b - 1])
    }
}

pub open spec fn all_digits(s: Seq<char>, a: int, b: int) -> bool {
    forall|i: int| a <= i < b ==> is_digit(#[trigger] s[i])
}

/// Start of the digits after an optional leading `+`.
pub open spec fn after_plus(s: Seq<char>) -> int {
    if s.len() > 0 && s[0] == '+' {
        1
    } else {
        0
    }
}

/// What `str::parse` returns for an unsigned integer type whose maximum is `max`:
/// an optional `+`, then at least one ASCII digit, with a value not above `max`.
pub open spec fn parse_unsigned(s: Seq<char>, max: nat) -> Option<nat> {
    let a = after_plus(s);
    if a < s.len() && all_digits(s, a, s.len() as int) && dec_val(s, a, s.len() as int) <= max {
        Some(dec_val(s, a, s.len() as int))
    } else {
        None
    }
}

/// What `str::parse::<i64>` returns: an optional `+` or `-`, then at least one
/// ASCII digit, with the value inside the range of `i64`.
pub open spec fn parse_i64(s: Seq<char>) -> Option<int> {
    if s.len() > 0 && s[0] == '-' {
        if 1 < s.len() && all_digits(s, 1, s.len() as int) && dec_val(s, 1, s.len() as int)
            <= 0x8000_0000_0000_0000 {
            Some(-dec_val(s, 1, s.len() as int))
        } else {
            None
        }
    } else {
        match parse_unsigned(s, 0x7FFF_FFFF_FFFF_FFFF) {
            Some(v) => Some(v as int),
            None => None,
        }
    }
}

pub open spec fn is_hex_digit(c: char) -> bool {
    ('0' <= c && c <= '9') || ('a' <= c && c <= 'f') || ('A' <= c && c <= 'F')
}

pub open spec fn hex_digit_value(c: char) -> nat {
    if '0' <= c && c <= '9' {
        ((c as u32) - ('0' as u32)) as nat
    } else if 'a' <= c && c <= 'f' {
        ((c as u32) - ('a' as u32) + 10) as nat
    } else {
        ((c as u32) - ('A' as u32) + 10) as nat
    }
}

/// Value of the hexadecimal digits `s[a..b]`.
pub open spec fn hex_val(s: Seq<char>, a: int, b: int) -> nat
    decreases b - a,
{
    if b <= a {
        0
    } else {
        hex_val(s, a, b - 1) * 16 + hex_digit_value(s[b - 1])
    }
}

pub open spec fn all_hex_digits(s: Seq<char>, a: int, b: int) -> bool {
    forall|i: int| a <= i < b ==> is_hex_digit(#[trigger] s[i])
}

/// What `u64::from_str_radix(s, 16)` returns.
pub open spec fn parse_hex_u64(s: Seq<char>) -> Option<u64> {
    let a = after_plus(s);
    if a < s.len() && all_hex_digits(s, a, s.len() as int) && hex_val(s, a, s.len() as int)
        <= u64::MAX {
        Some(hex_val(s, a, s.len() as int) as u64)
    } else {
        None
    }
}

pub proof fn lemma_dec_val_monotone(s: Seq<char>, a: int, b: int, c: int)
    requires
        a <= b <= c,
    ensures
        dec_val(s, a, b) <= dec_val(s, a, c),
    decreases c - b,
{
    if b < c {
        lemma_dec_val_monotone(s, a, b, c - 1);
    }
}

pub proof fn lemma_hex_val_monotone(s: Seq<char>, a: int, b: int, c: int)
    requires
        a <= b <= c,
    ensures
        hex_val(s, a, b) <= hex_val(s, a, c),
    decreases c - b,
{
    if b < c {
        lemma_hex_val_monotone(s, a, b, c - 1);
    }
}

/// Reads the decimal digits `s[start..]`, returning their value when all of them
/// are digits, there is at least one, and the value is at most `max`.
pub fn parse_decimal_digits(s: &[char], start: usize, max: u64) -> (r: Option<u64>)
    requires
        start <= s.len(),
    ensures
        r == (if start < s.len() && all_digits(s@, start as int, s.len() as int) && dec_val(
            s@,
            start as int,
            s.len() as int,
        ) <= max {
            Some(dec_val(s@, start as int, s.len() as int) as u64)
        } else {
            None::<u64>
        }),
{
    if start >= s.len() {
        return None;
    }
    let mut acc: u64 = 0;
    let mut i = start;
    while i < s.len()
        invariant
            start <= i <= s.len(),
            all_digits(s@, start as int, i as int),
            acc == dec_val(s@, start as int, i as int),
            acc <= max,
        decreases s.len() - i,
    {
        let c = s[i];
        if !('0' <= c && c <= '9') {
            return None;
        }
        let d = (c as u32 - '0' as u32) as u64;
        assert(d == digit_value(c));
        if d > max || acc > (max - d) / 10 {
            proof {
                assert(acc * 10 + d > max) by (nonlinear_arith)
                    requires
                        d > max || acc > (max - d) / 10,
                        0 <= d <= 9,
                        0 <= acc,
                ;
                lemma_dec_val_monotone(s@, start as int, i + 1, s.len() as int);
            }
            return None;
        }
        proof {
            assert(acc * 10 + d <= max) by (nonlinear_arith)
                requires
                    acc <= (max - d) / 10,
                    d <= max,
            ;
        }
        acc = acc * 10 + d;
        i = i + 1;
    }
    Some(acc)
}

/// Parses an unsigned decimal number the way `str::parse` does for an unsigned
/// type whose maximum is `max`.
pub fn parse_unsigned_decimal(s: &[char], max: u64) -> (r: Option<u64>)
    ensures
        r == (match parse_unsigned(s@, max as nat) {
            Some(v) => Some(v as u64),
            None => None::<u64>,
        }),
{
    let start: usize = if s.len() > 0 && s[0] == '+' {
        1
    } else {
        0
    };
    parse_decimal_digits(s, start, max)
}

/// `str::parse::<i64>`.
pub fn parse_i64_decimal(s: &[char]) -> (r: Option<i64>)
    ensures
        r == (match parse_i64(s@) {
            Some(v) => Some(v as i64),
            None => None::<i64>,
        }),
{
    if s.len() > 0 && s[0] == '-' {
        match parse_decimal_digits(s, 1, 0x8000_0000_0000_0000) {
            Some(m) => {
                if m == 0x8000_0000_0000_0000 {
                    Some(i64::MIN)
                } else {
                    Some(-(m as i64))
                }
            },
            None => None,
        }
    } else {
        match parse_unsigned_decimal(s, 0x7FFF_FFFF_FFFF_FFFF) {
            Some(v) => Some(v as i64),
            None => None,
        }
    }
}

/// `u64::from_str_radix(s, 16)`.
pub fn parse_hex(s: &[char]) -> (r: Option<u64>)
    ensures
        r == parse_hex_u64(s@),
{
    let start: usize = if s.len() > 0 && s[0] == '+' {
        1
    } else {
        0
    };
    if start >= s.len() {
        return None;
    }
    let mut acc: u64 = 0;
    let mut i = start;
    while i < s.len()
        invariant
            start == after_plus(s@),
            start <= i <= s.len(),
            all_hex_digits(s@, start as int, i as int),
            acc == hex_val(s@, start as int, i as int),
        decreases s.len() - i,
    {
        let c = s[i];
        let d: u64;
        if '0' <= c && c <= '9' {
            d = (c as u32 - '0' as u32) as u64;
        } else if 'a' <= c && c <= 'f' {
            d = (c as u32 - 'a' as u32 + 10) as u64;
        } else if 'A' <= c && c <= 'F' {
            d = (c as u32 - 'A' as u32 + 10) as u64;
        } else {
            return None;
        }
        assert(d == hex_digit_value(c));
        if acc > (u64::MAX - d) / 16 {
            proof {
                assert(acc * 16 + d > u64::MAX) by (nonlinear_arith)
                    requires
                        acc > (u64::MAX - d) / 16,
                        0 <= d <= 15,
                ;
                lemma_hex_val_monotone(s@, start as int, i + 1, s.len() as int);
            }
            return None;
        }
        proof {
            assert(acc * 16 + d <= u64::MAX) by (nonlinear_arith)
                requires
                    acc <= (u64::MAX - d) / 16,
                    d <= 15,
            ;
        }
        acc = acc * 16 + d;
        i = i + 1;
    }
    Some(acc)
}

pub open spec fn digit_char(d: nat) -> char {
    (('0' as u32) + d) as char
}

/// Decimal digits of `n`, as `Display` writes them.
pub open spec fn nat_to_dec(n: nat) -> Seq<char>
    decreases n,
{
    if n < 10 {
        seq![digit_char(n)]
    } else {
        nat_to_dec(n / 10).push(digit_char(n % 10))
    }
}

/// `Display` of an `i64`.
pub open spec fn i64_to_dec(n: int) -> Seq<char> {
    if n < 0 {
        seq!['-'] + nat_to_dec((-n) as nat)
    } else {
        nat_to_dec(n as nat)
    }
}

/// Appends the decimal digits of `n`.
pub fn push_decimal(out: &mut String, n: u64)
    ensures
        final(out)@ == old(out)@ + nat_to_dec(n as nat),
    decreases n,
{
    if n >= 10 {
        push_decimal(out, n / 10);
    }
    let c = (('0' as u32) + ((n % 10) as u32)) as u8 as char;
    assert(c == digit_char((n % 10) as nat));
    crate::text::push_char(out, c);
    assert(final(out)@ =~= old(out)@ + nat_to_dec(n as nat));
}

/// Appends `n` as `Display` formats it.
pub fn push_i64(out: &mut String, n: i64)
    ensures
        final(out)@ == old(out)@ + i64_to_dec(n as int),
{
    if n < 0 {
        crate::text::push_char(out, '-');
        let m: u64 = if n == i64::MIN {
            0x8000_0000_0000_0000
        } else {
            (-n) as u64
        };
        push_decimal(out, m);
        assert(final(out)@ =~= old(out)@ + i64_to_dec(n as int));
    } else {
        push_decimal(out, n as u64);
    }
}

} // verus!
