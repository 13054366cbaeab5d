//! Numbers as text: decimal and hexadecimal digits, written and read.

use vstd::prelude::*;

use crate::text::{chars_of, code_of};

verus! {

/// The character of a decimal digit.
pub open spec fn digit_char(d: nat) -> char {
    (48 + d) as char
}

/// The decimal digits of a number, without leading zeros.
pub open spec fn dec(n: nat) -> Seq<char>
    decreases n,
{
    if n < 10 {
        seq![digit_char(n)]
    } else {
        dec(n / 10).push(digit_char(n % 10))
    }
}

/// A signed number in decimal.
pub open spec fn dec_int(n: int) -> Seq<char> {
    if n < 0 {
        seq!['-'] + dec((-n) as nat)
    } else {
        dec(n as nat)
    }
}

/// Writes a number in decimal.
pub fn dec_text(n: u64) -> (out: String)
    ensures
        out@ == dec(n as nat),
    decreases n,
{
    let d: u8 = (n % 10) as u8;
    let c: char = (48u8 + d) as char;
    let mut out = if n < 10 {
        String::new()
    } else {
        dec_text(n / 10)
    };
    out.push(c);
    proof {
        if n < 10 {
            assert(out@ =~= dec(n as nat));
        }
    }
    out
}

/// Writes a signed number in decimal.
pub fn dec_int_text(n: i64) -> (out: String)
    ensures
        out@ == dec_int(n as int),
{
    if n >= 0 {
        return dec_text(n as u64);
    }
    let magnitude: u64 = if n == i64::MIN {
        0x8000_0000_0000_0000
    } else {
        (-n) as u64
    };
    let mut out = String::new();
    out.push('-');
    let digits = dec_text(magnitude);
    out.append(digits.as_str());
    assert(out@ =~= seq!['-'] + dec(magnitude as nat));
    out
}

/// The character of a hexadecimal digit, in lower or upper case.
pub open spec fn hex_char(d: nat, upper: bool) -> char {
    if d < 10 {
        (48 + d) as char
    } else if upper {
        (55 + d) as char
    } else {
        (87 + d) as char
    }
}

/// The hexadecimal digits of a number, in lower case and without leading zeros.
pub open spec fn hex(n: nat) -> Seq<char>
    decreases n,
{
    if n < 16 {
        seq![hex_char(n, false)]
    } else {
        hex(n / 16).push(hex_char(n % 16, false))
    }
}

fn hex_digit(d: u8, upper: bool) -> (c: char)
    requires
        d < 16,
    ensures
        c == hex_char(d as nat, upper),
{
    if d < 10 {
        (48u8 + d) as char
    } else if upper {
        (55u8 + d) as char
    } else {
        (87u8 + d) as char
    }
}

/// Writes a number in lower-case hexadecimal.
pub fn hex_text(n: u32) -> (out: String)
    ensures
        out@ == hex(n as nat),
    decreases n,
{
    let c = hex_digit((n % 16) as u8, false);
    let mut out = if n < 16 {
        String::new()
    } else {
        hex_text(n / 16)
    };
    out.push(c);
    proof {
        if n < 16 {
            assert(out@ =~= hex(n as nat));
        }
    }
    out
}

/// The two upper-case hexadecimal digits of a byte.
pub open spec fn hex_byte(b: u8) -> Seq<char> {
    seq![hex_char((b / 16) as nat, true), hex_char((b % 16) as nat, true)]
}

/// Appends the two upper-case hexadecimal digits of a byte.
pub fn push_hex_byte(out: &mut String, b: u8)
    ensures
        final(out)@ == old(out)@ + hex_byte(b),
{
    let hi = hex_digit(b / 16, true);
    let lo = hex_digit(b % 16, true);
    out.push(hi);
    out.push(lo);
    assert(out@ =~= old(out)@ + hex_byte(b));
}

// ---------------------------------------------------------------------------
// Reading
// ---------------------------------------------------------------------------

/// The value of a digit character in a radix of at most 16, if it is one.
pub open spec fn digit_value(c: char, radix: nat) -> Option<nat> {
    let n = c as int;
    let v = if 48 <= n <= 57 {
        n - 48
    } else if 97 <= n <= 102 {
        n - 87
    } else if 65 <= n <= 70 {
        n - 55
    } else {
        16
    };
    if v < radix {
        Some(v as nat)
    } else {
        None
    }
}

/// Whether every character is a digit of the radix.
pub open spec fn all_digits(s: Seq<char>, radix: nat) -> bool {
    forall|i: int| 0 <= i < s.len() ==> digit_value(#[trigger] s[i], radix) is Some
}

/// The number that the digits write in the radix.
pub open spec fn digits_value(s: Seq<char>, radix: nat) -> nat
    decreases s.len(),
{
    if s.len() == 0 {
        0
    } else {
        digits_value(s.drop_last(), radix) * radix + digit_value(s.last(), radix).unwrap_or(0)
    }
}

/// Reads one digit.
pub fn read_digit(c: char, radix: u32) -> (d: Option<u32>)
    requires
        radix <= 16,
    ensures
        match d {
            Some(v) => digit_value(c, radix as nat) == Some(v as nat),
            None => digit_value(c, radix as nat) is None,
        },
{
    let n: u32 = code_of(c);
    let v: u32 = if 48 <= n && n <= 57 {
        n - 48
    } else if 97 <= n && n <= 102 {
        n - 87
    } else if 65 <= n && n <= 70 {
        n - 55
    } else {
        16
    };
    if v < radix {
        Some(v)
    } else {
        None
    }
}

proof fn lemma_digits_value_grows(s: Seq<char>, i: int, radix: nat)
    requires
        0 <= i <= s.len(),
        radix >= 1,
    ensures
        digits_value(s.take(i), radix) <= digits_value(s, radix),
    decreases s.len() - i,
{
    if i == s.len() {
        assert(s.take(i) =~= s);
    } else {
        lemma_digits_value_grows(s, i + 1, radix);
        assert(s.take(i + 1).drop_last() =~= s.take(i));
        let a = digits_value(s.take(i), radix);
        assert(a * radix >= a) by (nonlinear_arith)
            requires
                radix >= 1,
                a >= 0,
        ;
    }
}

/// Whether every character is a digit of the radix.
pub fn are_digits(v: &Vec<char>, radix: u32) -> (r: bool)
    requires
        radix <= 16,
    ensures
        r == all_digits(v@, radix as nat),
{
    let mut i: usize = 0;
    while i < v.len()
        invariant
            i <= v@.len(),
            radix <= 16,
            forall|k: int| 0 <= k < i ==> digit_value(#[trigger] v@[k], radix as nat) is Some,
        decreases v@.len() - i,
    {
        if read_digit(v[i], radix).is_none() {
            assert(digit_value(v@[i as int], radix as nat) is None);
            return false;
        }
        i = i + 1;
    }
    true
}

proof fn lemma_digits_step(s: Seq<char>, i: int, radix: nat)
    requires
        0 <= i < s.len(),
    ensures
        digits_value(s.take(i + 1), radix) == digits_value(s.take(i), radix) * radix + digit_value(
            s[i],
            radix,
        ).unwrap_or(0),
{
    assert(s.take(i + 1).drop_last() =~= s.take(i));
}

/// Compares two numbers of any size by their decimal digits.
pub fn is_number_le(a: &Vec<char>, b: &Vec<char>) -> (r: bool)
    requires
        all_digits(a@, 10),
        all_digits(b@, 10),
    ensures
        r == (digits_value(a@, 10) <= digits_value(b@, 10)),
{
    let n: usize = if a.len() < b.len() {
        b.len()
    } else {
        a.len()
    };
    let mut less = false;
    let mut greater = false;
    let mut k: usize = 0;
    assert(a@.take(0) =~= seq![]);
    assert(b@.take(0) =~= seq![]);
    while k < n
        invariant
            k <= n,
            a@.len() <= n,
            b@.len() <= n,
            all_digits(a@, 10),
            all_digits(b@, 10),
            ({
                let x = digits_value(a@.take(leading(k as int, a@.len(), n as int)), 10);
                let y = digits_value(b@.take(leading(k as int, b@.len(), n as int)), 10);
                &&& less == (x < y)
                &&& greater == (x > y)
            }),
        decreases n - k,
    {
        let da: u32 = aligned_digit(a, k, n);
        let db: u32 = aligned_digit(b, k, n);
        if !less && !greater {
            less = da < db;
            greater = da > db;
        }
        k = k + 1;
    }
    assert(a@.take(a@.len() as int) =~= a@);
    assert(b@.take(b@.len() as int) =~= b@);
    !greater
}

/// How many digits of a number of `len` digits lie in the first `k` of `n` columns, when
/// the number stands at their right end.
spec fn leading(k: int, len: nat, n: int) -> int {
    if k + len <= n {
        0
    } else {
        k + len - n
    }
}

/// The digit in column `k` of `n`, when the number stands at their right end.
fn aligned_digit(v: &Vec<char>, k: usize, n: usize) -> (d: u32)
    requires
        k < n,
        v@.len() <= n,
        all_digits(v@, 10),
    ensures
        d < 10,
        digits_value(v@.take(leading(k + 1, v@.len(), n as int)), 10) == digits_value(
            v@.take(leading(k as int, v@.len(), n as int)),
            10,
        ) * 10 + d,
{
    let blank: usize = n - v.len();
    if k < blank {
        assert(v@.take(0) =~= seq![]);
        0
    } else {
        proof {
            lemma_digits_step(v@, k - blank, 10);
        }
        assert(digit_value(v@[k - blank], 10) is Some);
        match read_digit(v[k - blank], 10) {
            Some(d) => d,
            None => 0,
        }
    }
}

/// The number that a text writes in the radix, if all of its characters are digits, there
/// is at least one, and the number is no more than `max`.
pub open spec fn number_in(s: Seq<char>, radix: nat, max: nat) -> Option<nat> {
    if s.len() > 0 && all_digits(s, radix) && digits_value(s, radix) <= max {
        Some(digits_value(s, radix))
    } else {
        None
    }
}

/// Reads the characters `from..to` as a number of the radix.
pub fn read_number(v: &Vec<char>, from: usize, to: usize, radix: u32, max: u32) -> (out: Option<
    u32,
>)
    requires
        from <= to <= v@.len(),
        2 <= radix <= 16,
        max <= 0xffff,
    ensures
        match out {
            Some(n) => number_in(v@.subrange(from as int, to as int), radix as nat, max as nat)
                == Some(n as nat),
            None => number_in(v@.subrange(from as int, to as int), radix as nat, max as nat)
                is None,
        },
{
    let ghost s = v@.subrange(from as int, to as int);
    if from == to {
        return None;
    }
    let mut i: usize = from;
    let mut acc: u32 = 0;
    while i < to
        invariant
            from <= i <= to <= v@.len(),
            2 <= radix <= 16,
            max <= 0xffff,
            acc <= max,
            s == v@.subrange(from as int, to as int),
            acc == digits_value(s.take(i - from), radix as nat),
            all_digits(s.take(i - from), radix as nat),
        decreases to - i,
    {
        let ghost t = s.take(i - from + 1);
        proof {
            assert(t.drop_last() =~= s.take(i - from));
            assert(t.last() == v@[i as int]);
        }
        match read_digit(v[i], radix) {
            Some(d) => {
                assert(acc * radix <= 0xffff * 16) by (nonlinear_arith)
                    requires
                        acc <= 0xffff,
                        radix <= 16,
                ;
                acc = acc * radix + d;
                proof {
                    lemma_digits_value_grows(s, i - from + 1, radix as nat);
                    assert forall|k: int| 0 <= k < t.len() implies digit_value(
                        #[trigger] t[k],
                        radix as nat,
                    ) is Some by {
                        if k < t.len() - 1 {
                            assert(t[k] == s.take(i - from)[k]);
                        }
                    }
                }
                if acc > max {
                    return None;
                }
            },
            None => {
                assert(digit_value(s[i - from], radix as nat) is None);
                return None;
            },
        }
        i = i + 1;
    }
    assert(s.take(to - from) =~= s);
    Some(acc)
}

/// The number that a text writes as an unsigned byte: an optional plus sign, then
/// decimal digits, no more than 255.
pub open spec fn byte_number(s: Seq<char>) -> Option<nat> {
    if s.len() > 0 && s[0] == '+' {
        number_in(s.skip(1), 10, 255)
    } else {
        number_in(s, 10, 255)
    }
}

/// Reads a text as an unsigned byte.
pub fn parse_byte(s: &str) -> (out: Option<u8>)
    ensures
        match out {
            Some(n) => byte_number(s@) == Some(n as nat),
            None => byte_number(s@) is None,
        },
{
    let v = chars_of(s);
    let from: usize = if v.len() > 0 && v[0] == '+' {
        1
    } else {
        0
    };
    proof {
        assert(v@.subrange(0, v@.len() as int) =~= s@);
        if v@.len() > 0 {
            assert(v@.subrange(1, v@.len() as int) =~= s@.skip(1));
        }
    }
    match read_number(&v, from, v.len(), 10, 255) {
        Some(n) => Some(n as u8),
        None => None,
    }
}

// ---------------------------------------------------------------------------
// What is written is read back
// ---------------------------------------------------------------------------

/// A number's decimal digits are digits and write that number.
pub proof fn dec_reads_back(n: nat)
    ensures
        dec(n).len() > 0,
        all_digits(dec(n), 10),
        digits_value(dec(n), 10) == n,
        n > 0 ==> dec(n)[0] != '0',
    decreases n,
{
    let d = n % 10;
    assert(digit_value(digit_char(d), 10) == Some(d));
    if n < 10 {
        assert(dec(n).drop_last() =~= Seq::<char>::empty());
        assert(digits_value(Seq::<char>::empty(), 10) == 0);
    } else {
        dec_reads_back(n / 10);
        assert(dec(n).drop_last() =~= dec(n / 10));
        assert forall|i: int| 0 <= i < dec(n).len() implies digit_value(
            #[trigger] dec(n)[i],
            10,
        ) is Some by {
            if i < dec(n).len() - 1 {
                assert(dec(n)[i] == dec(n / 10)[i]);
            }
        }
        assert(dec(n)[0] == dec(n / 10)[0]);
    }
}

/// A number's hexadecimal digits are digits and write that number.
pub proof fn hex_reads_back(n: nat)
    ensures
        hex(n).len() > 0,
        all_digits(hex(n), 16),
        digits_value(hex(n), 16) == n,
    decreases n,
{
    let d = n % 16;
    assert(digit_value(hex_char(d, false), 16) == Some(d));
    if n < 16 {
        assert(hex(n).drop_last() =~= Seq::<char>::empty());
        assert(digits_value(Seq::<char>::empty(), 16) == 0);
    } else {
        hex_reads_back(n / 16);
        assert(hex(n).drop_last() =~= hex(n / 16));
        assert forall|i: int| 0 <= i < hex(n).len() implies digit_value(
            #[trigger] hex(n)[i],
            16,
        ) is Some by {
            if i < hex(n).len() - 1 {
                assert(hex(n)[i] == hex(n / 16)[i]);
            }
        }
    }
}

/// The second of the day that a number of seconds since the epoch falls on.
pub fn second_in_day(secs: i128) -> (s: u32)
    requires
        -0x1_0000_0000_0000_0000 <= secs <= 0x1_0000_0000_0000_0000,
    ensures
        s == secs as int % 86_400,
{
    // Whole days are added, so many that the number is not negative.
    let shifted: i128 = secs + 18_446_744_073_709_612_800;
    proof {
        vstd::arithmetic::div_mod::lemma_mod_multiples_vanish(
            213_503_982_334_602,
            secs as int,
            86_400,
        );
    }
    (shifted as u128 % 86_400) as u32
}

} // verus!
