//! The parts of a vsomeip configuration that the transport reads, and the runtime settings.

use crate::{ClientId, InstanceId, ServiceId};
use vstd::prelude::*;
use vstd::string::StringExecFns;

verus! {

broadcast use vstd::string::axiom_spec_iter;

/// A service that a vsomeip configuration lists.
#[derive(Clone, Copy, Debug, PartialEq, Eq, Structural)]
pub struct ServiceConfig {
    pub service: ServiceId,
    pub instance: InstanceId,
}

/// An application that a vsomeip configuration lists.
#[derive(Clone, Debug)]
pub struct VsomeipApplicationConfig {
    pub name: String,
    pub id: ClientId,
}

impl VsomeipApplicationConfig {
    /// An application configuration of a name and a client id.
    pub fn new(name: &str, id: ClientId) -> (c: Self)
        ensures
            c.name@ == name@,
            c.id == id,
    {
        VsomeipApplicationConfig { name: String::from_str(name), id }
    }
}

/// The number of worker threads when no runtime configuration is given.
pub const DEFAULT_NUM_THREADS: u8 = 10;

/// Settings of the runtime that runs listener callbacks.
#[derive(Clone, Copy, Debug, PartialEq, Eq, Structural)]
pub struct RuntimeConfig {
    pub num_threads: u8,
}

/// The number of worker threads of the callback runtime: the configured number, or
/// `DEFAULT_NUM_THREADS` without a configuration.
pub fn worker_thread_count(runtime_config: Option<RuntimeConfig>) -> (n: u8)
    ensures
        n == match runtime_config {
            Some(c) => c.num_threads,
            None => DEFAULT_NUM_THREADS,
        },
{
    if let Some(runtime_config) = runtime_config {
        runtime_config.num_threads
    } else {
        DEFAULT_NUM_THREADS
    }
}

/// Why a hexadecimal number could not be read.
#[derive(Clone, Copy, Debug, PartialEq, Eq, Structural)]
pub enum HexParseError {
    /// nothing to read
    Empty,
    /// a character that is not a hexadecimal digit
    InvalidDigit,
    /// the number does not fit in 16 bits
    PosOverflow,
}

/// The text with every leading `0x` taken off, one after another.
pub open spec fn trim_leading_0x(s: Seq<char>) -> Seq<char>
    decreases s.len(),
{
    if s.len() >= 2 && s[0] == '0' && s[1] == 'x' {
        trim_leading_0x(s.subrange(2, s.len() as int))
    } else {
        s
    }
}

/// The value of a hexadecimal digit (either case), if the character is one.
pub open spec fn hex_digit_value(c: char) -> Option<nat> {
    if '0' <= c && c <= '9' {
        Some((c as nat - '0' as nat) as nat)
    } else if 'a' <= c && c <= 'f' {
        Some((c as nat - 'a' as nat + 10) as nat)
    } else if 'A' <= c && c <= 'F' {
        Some((c as nat - 'A' as nat + 10) as nat)
    } else {
        None
    }
}

/// Reads hexadecimal digits after the value `acc` read so far: the first character that is
/// not a digit gives `InvalidDigit`, the first digit that takes the value past `0xFFFF`
/// gives `PosOverflow`.
pub open spec fn hex_digits_value(d: Seq<char>, acc: nat) -> Result<u16, HexParseError>
    decreases d.len(),
{
    if d.len() == 0 {
        Ok(acc as u16)
    } else {
        match hex_digit_value(d[0]) {
            None => Err(HexParseError::InvalidDigit),
            Some(v) => if acc * 16 + v > 0xFFFF {
                Err(HexParseError::PosOverflow)
            } else {
                hex_digits_value(d.drop_first(), acc * 16 + v)
            },
        }
    }
}

/// A 16-bit number in base 16, as `u16::from_str_radix` reads it: an optional `+` sign and
/// then only digits; an empty text is `Empty`, a lone sign `InvalidDigit`.
pub open spec fn spec_from_str_radix_16(t: Seq<char>) -> Result<u16, HexParseError> {
    if t.len() == 0 {
        Err(HexParseError::Empty)
    } else if t.len() == 1 && (t[0] == '+' || t[0] == '-') {
        Err(HexParseError::InvalidDigit)
    } else if t[0] == '+' {
        hex_digits_value(t.drop_first(), 0)
    } else {
        hex_digits_value(t, 0)
    }
}

fn str_chars(s: &str) -> (v: Vec<char>)
    ensures
        v@ == s@,
{
    let mut v: Vec<char> = Vec::new();
    for c in it: s.chars()
        invariant
            it.seq() == s@,
            v@ == it.seq().take(it.index() as int),
    {
        v.push(c);
        assert(v@ =~= it.seq().take(it.index() + 1));
    }
    assert(v@ =~= s@);
    v
}

fn hex_digit(c: char) -> (r: Option<u32>)
    ensures
        match r {
            Some(v) => hex_digit_value(c) == Some(v as nat) && v < 16,
            None => hex_digit_value(c) is None,
        },
{
    if '0' <= c && c <= '9' {
        Some((c as u32) - ('0' as u32))
    } else if 'a' <= c && c <= 'f' {
        Some((c as u32) - ('a' as u32) + 10)
    } else if 'A' <= c && c <= 'F' {
        Some((c as u32) - ('A' as u32) + 10)
    } else {
        None
    }
}

/// Reads a 16-bit client, service or instance id written in hexadecimal, with any number of
/// leading `0x` taken off first.
pub fn deserialize_hex_u16(hex_str: &str) -> (r: Result<u16, HexParseError>)
    ensures
        r == spec_from_str_radix_16(trim_leading_0x(hex_str@)),
{
    let chars = str_chars(hex_str);
    let n = chars.len();
    let mut start: usize = 0;
    assert(chars@.subrange(0, n as int) =~= chars@);
    while n - start >= 2 && chars[start] == '0' && chars[start + 1] == 'x'
        invariant
            start <= n,
            n == chars@.len(),
            chars@ == hex_str@,
            trim_leading_0x(chars@) == trim_leading_0x(chars@.subrange(start as int, n as int)),
        decreases n - start,
    {
        let ghost rest = chars@.subrange(start as int, n as int);
        assert(rest.subrange(2, rest.len() as int) =~= chars@.subrange(start + 2, n as int));
        start = start + 2;
    }
    let ghost t = chars@.subrange(start as int, n as int);
    assert(trim_leading_0x(chars@) == t) by {
        if t.len() >= 2 && t[0] == '0' && t[1] == 'x' {
            assert(chars@[start as int] == '0' && chars@[start + 1] == 'x');
        }
    }
    if start == n {
        return Err(HexParseError::Empty);
    }
    if start + 1 == n && (chars[start] == '+' || chars[start] == '-') {
        return Err(HexParseError::InvalidDigit);
    }
    let mut i: usize = start;
    if chars[start] == '+' {
        i = start + 1;
    }
    assert(spec_from_str_radix_16(t) == hex_digits_value(chars@.subrange(i as int, n as int), 0)) by {
        if chars@[start as int] == '+' {
            assert(t.drop_first() =~= chars@.subrange(i as int, n as int));
        } else {
            assert(t =~= chars@.subrange(i as int, n as int));
        }
    }
    let mut acc: u32 = 0;
    while i < n
        invariant
            start <= i <= n,
            n == chars@.len(),
            acc <= 0xFFFF,
            trim_leading_0x(hex_str@) == t,
            spec_from_str_radix_16(t) == hex_digits_value(chars@.subrange(i as int, n as int), acc as nat),
        decreases n - i,
    {
        let ghost d = chars@.subrange(i as int, n as int);
        assert(d[0] == chars@[i as int]);
        assert(d.drop_first() =~= chars@.subrange(i + 1, n as int));
        match hex_digit(chars[i]) {
            None => {
                assert(hex_digits_value(d, acc as nat) == Err::<u16, HexParseError>(HexParseError::InvalidDigit));
                return Err(HexParseError::InvalidDigit);
            },
            Some(v) => {
                if acc * 16 + v > 0xFFFF {
                    assert(hex_digits_value(d, acc as nat) == Err::<u16, HexParseError>(HexParseError::PosOverflow));
                    return Err(HexParseError::PosOverflow);
                }
                acc = acc * 16 + v;
            },
        }
        i = i + 1;
    }
    assert(chars@.subrange(i as int, n as int).len() == 0);
    Ok(acc as u16)
}


/// The hexadecimal digit of a value below 16: `0`..`9`, then `A`..`F`.
pub open spec fn hex_char(v: nat) -> char {
    seq!['0', '1', '2', '3', '4', '5', '6', '7', '8', '9', 'A', 'B', 'C', 'D', 'E', 'F'][v as int]
}

/// A 16-bit number written with four hexadecimal digits, most significant first.
pub open spec fn hex4(n: u16) -> Seq<char> {
    seq![
        hex_char(n as nat / 0x1000),
        hex_char(n as nat / 0x100 % 0x10),
        hex_char(n as nat / 0x10 % 0x10),
        hex_char(n as nat % 0x10),
    ]
}

proof fn lemma_hex_char_value(v: nat)
    requires
        v < 16,
    ensures
        hex_digit_value(hex_char(v)) == Some(v),
{
    let digits = seq!['0', '1', '2', '3', '4', '5', '6', '7', '8', '9', 'A', 'B', 'C', 'D', 'E', 'F'];
    assert(hex_char(v) == digits[v as int]);
    if v == 0 { assert(digits[0] == '0'); }
    else if v == 1 { assert(digits[1] == '1'); }
    else if v == 2 { assert(digits[2] == '2'); }
    else if v == 3 { assert(digits[3] == '3'); }
    else if v == 4 { assert(digits[4] == '4'); }
    else if v == 5 { assert(digits[5] == '5'); }
    else if v == 6 { assert(digits[6] == '6'); }
    else if v == 7 { assert(digits[7] == '7'); }
    else if v == 8 { assert(digits[8] == '8'); }
    else if v == 9 { assert(digits[9] == '9'); }
    else if v == 10 { assert(digits[10] == 'A'); }
    else if v == 11 { assert(digits[11] == 'B'); }
    else if v == 12 { assert(digits[12] == 'C'); }
    else if v == 13 { assert(digits[13] == 'D'); }
    else if v == 14 { assert(digits[14] == 'E'); }
    else { assert(digits[15] == 'F'); }
}

/// Every 16-bit number, written as `0x` and four hexadecimal digits (upper case), reads
/// back as itself; so does the same text without the `0x`.
pub proof fn lemma_hex_round_trip(n: u16)
    ensures
        spec_from_str_radix_16(trim_leading_0x(seq!['0', 'x'] + hex4(n))) == Ok::<u16, HexParseError>(n),
        spec_from_str_radix_16(trim_leading_0x(hex4(n))) == Ok::<u16, HexParseError>(n),
{
    let a = n as nat / 0x1000;
    let b = n as nat / 0x100 % 0x10;
    let c = n as nat / 0x10 % 0x10;
    let d = n as nat % 0x10;
    lemma_hex_char_value(a);
    lemma_hex_char_value(b);
    lemma_hex_char_value(c);
    lemma_hex_char_value(d);
    let t = hex4(n);
    let full = seq!['0', 'x'] + t;
    // the digits are no `0x`, so only the prefix is trimmed
    assert(hex_digit_value(t[1]) is Some);
    assert(t[1] != 'x');
    assert(full.subrange(2, full.len() as int) =~= t);
    assert(trim_leading_0x(full) == trim_leading_0x(t));
    assert(trim_leading_0x(t) == t);
    assert(t[0] != '+' && t[0] != '-');
    assert(((a * 16 + b) * 16 + c) * 16 + d == n as nat) by (nonlinear_arith)
        requires
            a == n as nat / 0x1000,
            b == n as nat / 0x100 % 0x10,
            c == n as nat / 0x10 % 0x10,
            d == n as nat % 0x10,
            n <= 0xFFFF,
    ;
    assert(a * 16 + b <= 0xFF) by (nonlinear_arith)
        requires
            a == n as nat / 0x1000,
            b == n as nat / 0x100 % 0x10,
            n <= 0xFFFF,
    ;
    assert((a * 16 + b) * 16 + c <= 0xFFF) by (nonlinear_arith)
        requires
            a * 16 + b <= 0xFF,
            c < 16,
    ;
    let t1 = t.drop_first();
    let t2 = t1.drop_first();
    let t3 = t2.drop_first();
    let t4 = t3.drop_first();
    assert(t1 =~= seq![hex_char(b), hex_char(c), hex_char(d)]);
    assert(t2 =~= seq![hex_char(c), hex_char(d)]);
    assert(t3 =~= seq![hex_char(d)]);
    assert(t4.len() == 0);
    assert(hex_digits_value(t4, ((a * 16 + b) * 16 + c) * 16 + d) == Ok::<u16, HexParseError>(n));
    assert(hex_digits_value(t3, (a * 16 + b) * 16 + c) == Ok::<u16, HexParseError>(n));
    assert(hex_digits_value(t2, a * 16 + b) == Ok::<u16, HexParseError>(n));
    assert(hex_digits_value(t1, a) == Ok::<u16, HexParseError>(n));
    assert(hex_digits_value(t, 0) == Ok::<u16, HexParseError>(n));
}

} // verus!
