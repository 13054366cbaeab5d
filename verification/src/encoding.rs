//! Text in the encodings of the system: UTF-16 with a closing zero, and bytes.

use vstd::prelude::*;
use vstd::utf8::{decode_utf8, valid_utf8};

use crate::text::{chars_of, code_of};

verus! {

/// Whether a number is the code point of a character.
pub open spec fn is_code(n: int) -> bool {
    0 <= n < 0xd800 || 0xe000 <= n <= 0x10ffff
}

/// `char::from_u32`: the character with the code point, where there is one.
pub assume_specification[ char::from_u32 ](i: u32) -> (c: Option<char>)
    ensures
        c is Some <==> is_code(i as int),
        c matches Some(x) ==> x as int == i,
;

/// The units of one character.
pub open spec fn units_of(c: char) -> Seq<u16> {
    let n = c as int;
    if n < 0x10000 {
        seq![n as u16]
    } else {
        seq![(0xd800 + (n - 0x10000) / 0x400) as u16, (0xdc00 + (n - 0x10000) % 0x400) as u16]
    }
}

/// The text in UTF-16.
pub open spec fn utf16_of(s: Seq<char>) -> Seq<u16>
    decreases s.len(),
{
    if s.len() == 0 {
        seq![]
    } else {
        utf16_of(s.drop_last()) + units_of(s.last())
    }
}

/// Turns a text into UTF-16 with a closing zero, as the system takes it.
pub fn to_wide(s: &str) -> (out: Vec<u16>)
    ensures
        out@ == utf16_of(s@).push(0),
{
    let v = chars_of(s);
    let mut out: Vec<u16> = Vec::new();
    let mut i: usize = 0;
    while i < v.len()
        invariant
            v@ == s@,
            i <= v@.len(),
            out@ == utf16_of(s@.take(i as int)),
        decreases v@.len() - i,
    {
        let ghost before = out@;
        assert(s@.take(i + 1).drop_last() =~= s@.take(i as int));
        let n = code_of(v[i]);
        if n < 0x10000 {
            out.push(n as u16);
            assert(out@ =~= before + units_of(s@[i as int]));
        } else {
            out.push((0xd800 + (n - 0x10000) / 0x400) as u16);
            out.push((0xdc00 + (n - 0x10000) % 0x400) as u16);
            assert(out@ =~= before + units_of(s@[i as int]));
        }
        i = i + 1;
    }
    assert(s@.take(s@.len() as int) =~= s@);
    out.push(0);
    out
}

/// Whether a unit is the first half of a pair.
pub open spec fn is_high(u: u16) -> bool {
    0xd800 <= u < 0xdc00
}

/// Whether a unit is the second half of a pair.
pub open spec fn is_low(u: u16) -> bool {
    0xdc00 <= u < 0xe000
}

/// The text that UTF-16 units stand for; a half without its partner stands for U+FFFD.
pub open spec fn utf16_text(u: Seq<u16>) -> Seq<char>
    decreases u.len(),
{
    if u.len() == 0 {
        seq![]
    } else if is_high(u[0]) && u.len() >= 2 && is_low(u[1]) {
        seq![(0x10000 + (u[0] - 0xd800) * 0x400 + (u[1] - 0xdc00)) as char] + utf16_text(u.skip(2))
    } else if is_high(u[0]) || is_low(u[0]) {
        seq!['\u{fffd}'] + utf16_text(u.skip(1))
    } else {
        seq![u[0] as char] + utf16_text(u.skip(1))
    }
}

/// Turns UTF-16 units into text; a half without its partner becomes U+FFFD.
pub fn decode_utf16(u: &Vec<u16>, len: usize) -> (out: String)
    requires
        len <= u@.len(),
    ensures
        out@ == utf16_text(u@.take(len as int)),
{
    let ghost all = u@.take(len as int);
    let mut out = String::new();
    let mut i: usize = 0;
    assert(all.skip(0) =~= all);
    assert(out@ + utf16_text(all) =~= utf16_text(all));
    while i < len
        invariant
            i <= len <= u@.len(),
            all == u@.take(len as int),
            out@ + utf16_text(all.skip(i as int)) == utf16_text(all),
        decreases len - i,
    {
        let ghost rest = all.skip(i as int);
        let ghost before = out@;
        let a = u[i];
        assert(rest[0] == a);
        assert(rest.skip(1) =~= all.skip(i + 1));
        let high = a >= 0xd800 && a < 0xdc00;
        let low = a >= 0xdc00 && a < 0xe000;
        if high && len - i >= 2 && u[i + 1] >= 0xdc00 && u[i + 1] < 0xe000 {
            let b = u[i + 1];
            assert(rest[1] == b);
            assert(rest.skip(2) =~= all.skip(i + 2));
            let n: u32 = 0x10000 + (a as u32 - 0xd800) * 0x400 + (b as u32 - 0xdc00);
            match char::from_u32(n) {
                Some(c) => {
                    out.push(c);
                    assert(before + (seq![c] + utf16_text(all.skip(i + 2))) =~= out@ + utf16_text(
                        all.skip(i + 2),
                    ));
                },
                None => {},
            }
            i = i + 2;
        } else {
            let c = if high || low {
                '\u{fffd}'
            } else {
                match char::from_u32(a as u32) {
                    Some(c) => c,
                    None => '\u{fffd}',
                }
            };
            out.push(c);
            assert(before + (seq![c] + utf16_text(all.skip(i + 1))) =~= out@ + utf16_text(
                all.skip(i + 1),
            ));
            i = i + 1;
        }
    }
    assert(all.skip(len as int) =~= Seq::<u16>::empty());
    assert(out@ + Seq::<char>::empty() =~= out@);
    out
}

proof fn lemma_code_of_char(c: char)
    ensures
        is_code(c as int),
{
}

/// A text in UTF-16 reads back as itself, whatever follows it.
pub proof fn utf16_front_reads_back(s: Seq<char>, tail: Seq<u16>)
    ensures
        utf16_text(utf16_of(s) + tail) == s + utf16_text(tail),
    decreases s.len(),
{
    if s.len() == 0 {
        assert(utf16_of(s) + tail =~= tail);
        assert(s + utf16_text(tail) =~= utf16_text(tail));
    } else {
        let c = s.last();
        let n = c as int;
        let front = s.drop_last();
        let rest = units_of(c) + tail;
        utf16_front_reads_back(front, rest);
        lemma_code_of_char(c);
        assert(utf16_of(s) + tail =~= utf16_of(front) + rest);
        if n < 0x10000 {
            assert(rest.skip(1) =~= tail);
        } else {
            assert(rest.skip(2) =~= tail);
            let (hi, lo) = ((n - 0x10000) / 0x400, (n - 0x10000) % 0x400);
            assert(0 <= hi < 0x400 && 0 <= lo < 0x400 && n == 0x10000 + hi * 0x400 + lo);
            assert(rest[0] == 0xd800 + hi);
            assert(rest[1] == 0xdc00 + lo);
            assert(is_high(rest[0]) && is_low(rest[1]));
            assert((0x10000 + (rest[0] - 0xd800) * 0x400 + (rest[1] - 0xdc00)) as char == c);
        }
        assert(utf16_text(rest) =~= seq![c] + utf16_text(tail));
        assert(front + (seq![c] + utf16_text(tail)) =~= s + utf16_text(tail));
    }
}

/// A text turned into UTF-16 reads back as itself.
pub proof fn utf16_reads_back(s: Seq<char>)
    ensures
        utf16_text(utf16_of(s)) == s,
{
    utf16_front_reads_back(s, Seq::empty());
    assert(utf16_of(s) + Seq::<u16>::empty() =~= utf16_of(s));
    assert(s + Seq::<char>::empty() =~= s);
}

/// Where the first zero stands, or the length if there is none.
pub open spec fn first_zero(u: Seq<u16>) -> int
    decreases u.len(),
{
    if u.len() == 0 || u[0] == 0 {
        0
    } else {
        1 + first_zero(u.skip(1))
    }
}

/// Finds the first zero among the units.
pub fn find_zero(u: &Vec<u16>) -> (i: usize)
    ensures
        i == first_zero(u@),
        i <= u@.len(),
{
    let mut i: usize = 0;
    assert(u@.skip(0) =~= u@);
    while i < u.len() && u[i] != 0
        invariant
            i <= u@.len(),
            first_zero(u@) == i + first_zero(u@.skip(i as int)),
        decreases u@.len() - i,
    {
        assert(u@.skip(i as int).skip(1) =~= u@.skip(i + 1));
        i = i + 1;
    }
    i
}

/// What `String::from_utf8_lossy` makes of bytes.
pub uninterp spec fn utf8_lossy(bytes: Seq<u8>) -> Seq<char>;

/// `String::from_utf8_lossy`: the text that the bytes encode in UTF-8. Of bytes that
/// are not UTF-8 it is said that the same bytes give the same text, and not what stands
/// in it for the faulty ones.
#[verifier::external_body]
pub(crate) fn decode_bytes(bytes: &Vec<u8>) -> (out: String)
    ensures
        out@ == utf8_lossy(bytes@),
        valid_utf8(bytes@) ==> out@ == decode_utf8(bytes@),
{
    String::from_utf8_lossy(bytes).into_owned()
}

/// The text that bytes stand for: what they encode where they are UTF-8.
pub open spec fn bytes_text(bytes: Seq<u8>) -> Seq<char> {
    if valid_utf8(bytes) {
        decode_utf8(bytes)
    } else {
        utf8_lossy(bytes)
    }
}

} // verus!
