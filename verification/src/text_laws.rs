//! What reading and writing text comes to: numbers, white space, pieces, order, UTF-16.

use vstd::prelude::*;

use crate::encoding::{first_zero, units_of, utf16_front_reads_back, utf16_of, utf16_text};
use crate::json::{json_char, json_chars, json_quoted};
use crate::number::{
    all_digits, byte_number, dec, dec_int, digit_value, digits_value, hex, hex_byte, hex_char,
    number_in,
};
use crate::text::{
    contains_text, first_where, lemma_first_where, lemma_first_where_at, only, pieces, split_once,
    stands_at, text_le, trim_end, trim_start, trimmed,
};

verus! {

// ---------------------------------------------------------------------------
// Numbers
// ---------------------------------------------------------------------------

/// What a character is worth as a digit; sixteen if it is none.
pub open spec fn worth(c: char) -> int {
    if '0' <= c <= '9' {
        c as int - '0' as int
    } else if 'a' <= c <= 'f' {
        c as int - 'a' as int + 10
    } else if 'A' <= c <= 'F' {
        c as int - 'A' as int + 10
    } else {
        16
    }
}

/// Whether a text is made of digits that are worth less than the base.
pub open spec fn is_written_in(s: Seq<char>, base: int) -> bool {
    forall|i: int| 0 <= i < s.len() ==> worth(#[trigger] s[i]) < base
}

/// What digits are worth together: each is worth the base times as much as the next.
pub open spec fn weight(s: Seq<char>, base: int) -> int
    decreases s.len(),
{
    if s.len() == 0 {
        0
    } else {
        base * weight(s.drop_last(), base) + worth(s.last())
    }
}

proof fn lemma_digit_value(c: char, base: nat)
    requires
        base <= 16,
    ensures
        digit_value(c, base) == if worth(c) < base {
            Some(worth(c) as nat)
        } else {
            None
        },
{
}

proof fn lemma_weight(s: Seq<char>, base: nat)
    requires
        2 <= base <= 16,
    ensures
        all_digits(s, base) == is_written_in(s, base as int),
        is_written_in(s, base as int) ==> weight(s, base as int) == digits_value(s, base),
        is_written_in(s, base as int) ==> weight(s, base as int) >= 0,
    decreases s.len(),
{
    assert forall|i: int| 0 <= i < s.len() implies (digit_value(#[trigger] s[i], base) is Some
        <==> worth(s[i]) < base) by {
        lemma_digit_value(s[i], base);
    }
    if all_digits(s, base) {
        assert forall|i: int| 0 <= i < s.len() implies worth(#[trigger] s[i]) < base by {
            assert(digit_value(s[i], base) is Some);
        }
    }
    if is_written_in(s, base as int) && s.len() > 0 {
        lemma_weight(s.drop_last(), base);
        assert forall|i: int| 0 <= i < s.drop_last().len() implies worth(
            #[trigger] s.drop_last()[i],
        ) < base by {
            assert(s.drop_last()[i] == s[i]);
        }
        lemma_digit_value(s.last(), base);
        assert(worth(s[s.len() - 1]) < base);
        let d = digits_value(s.drop_last(), base);
        assert(d * base == base * d) by (nonlinear_arith);
        assert(d * base >= 0) by (nonlinear_arith)
            requires
                d >= 0,
                base >= 0,
        ;
    }
}

/// A text is read as a number exactly if it has digits only, at least one, and is worth no
/// more than the greatest number allowed; and it is read as what it is worth.
pub proof fn number_is_what_the_digits_are_worth(s: Seq<char>, base: nat, max: nat, n: nat)
    requires
        2 <= base <= 16,
    ensures
        number_in(s, base, max) == Some(n) <==> s.len() > 0 && is_written_in(s, base as int) && n
            <= max && weight(s, base as int) == n,
        number_in(s, base, max) is None <==> s.len() == 0 || !is_written_in(s, base as int)
            || weight(s, base as int) > max,
{
    lemma_weight(s, base);
}

/// A byte is read with or without a plus sign, and is at most 255.
pub proof fn byte_may_have_a_plus_sign(s: Seq<char>, n: nat)
    requires
        s.len() > 0 ==> s[0] != '+',
    ensures
        byte_number(s) == Some(n) <==> s.len() > 0 && is_written_in(s, 10) && n <= 255 && weight(
            s,
            10,
        ) == n,
        byte_number(seq!['+'] + s) == byte_number(s),
{
    lemma_weight(s, 10);
    assert((seq!['+'] + s).skip(1) =~= s);
}

/// Decimal digits are worth the number that they write, and there is no zero too many.
pub proof fn decimal_writes_the_number(n: nat)
    ensures
        dec(n).len() > 0,
        forall|i: int| 0 <= i < dec(n).len() ==> '0' <= #[trigger] dec(n)[i] <= '9',
        weight(dec(n), 10) == n,
        n > 0 ==> dec(n)[0] != '0',
        n == 0 ==> dec(n) == seq!['0'],
    decreases n,
{
    if n >= 10 {
        decimal_writes_the_number(n / 10);
        assert(dec(n).drop_last() =~= dec(n / 10));
        assert(dec(n)[0] == dec(n / 10)[0]);
        assert forall|i: int| 0 <= i < dec(n).len() implies '0' <= #[trigger] dec(n)[i] <= '9' by {
            if i < dec(n).len() - 1 {
                assert(dec(n)[i] == dec(n / 10)[i]);
            }
        }
    } else {
        assert(dec(n).drop_last() =~= Seq::<char>::empty());
        assert(weight(Seq::<char>::empty(), 10) == 0);
    }
}

/// A number below zero has a minus sign before its digits, any other has none.
pub proof fn minus_sign_stands_before_the_digits(n: nat)
    ensures
        dec_int(n as int) == dec(n),
        n > 0 ==> dec_int(-(n as int)) == seq!['-'] + dec(n),
{
}

/// Hexadecimal digits are in lower case and worth the number that they write.
pub proof fn hexadecimal_writes_the_number(n: nat)
    ensures
        hex(n).len() > 0,
        is_written_in(hex(n), 16),
        forall|i: int| 0 <= i < hex(n).len() ==> !('A' <= #[trigger] hex(n)[i] <= 'F'),
        weight(hex(n), 16) == n,
        n > 0 ==> hex(n)[0] != '0',
    decreases n,
{
    assert(worth(hex_char(n % 16, false)) == n % 16);
    if n >= 16 {
        hexadecimal_writes_the_number(n / 16);
        assert(hex(n).drop_last() =~= hex(n / 16));
        assert(hex(n)[0] == hex(n / 16)[0]);
        assert forall|i: int| 0 <= i < hex(n).len() implies !('A' <= #[trigger] hex(n)[i] <= 'F')
            && worth(hex(n)[i]) < 16 by {
            if i < hex(n).len() - 1 {
                assert(hex(n)[i] == hex(n / 16)[i]);
            }
        }
    } else {
        assert(hex(n).drop_last() =~= Seq::<char>::empty());
        assert(weight(Seq::<char>::empty(), 16) == 0);
    }
}

/// A byte is written as two hexadecimal digits in upper case.
pub proof fn byte_is_written_as_two_digits(b: u8)
    ensures
        hex_byte(b).len() == 2,
        is_written_in(hex_byte(b), 16),
        weight(hex_byte(b), 16) == b,
        !('a' <= hex_byte(b)[0] <= 'f'),
        !('a' <= hex_byte(b)[1] <= 'f'),
{
    let s = hex_byte(b);
    assert(worth(s[0]) == b / 16);
    assert(worth(s[1]) == b % 16);
    assert(s.drop_last() =~= seq![s[0]]);
    assert(s.drop_last().drop_last() =~= Seq::<char>::empty());
    reveal_with_fuel(weight, 3);
}

// ---------------------------------------------------------------------------
// White space
// ---------------------------------------------------------------------------

/// Whether a character leaves white space: a blank, a tab, a line break, or one of the
/// blanks of other scripts.
pub open spec fn is_white(c: char) -> bool {
    ||| c == ' ' || '\u{9}' <= c <= '\u{d}'
    ||| c == '\u{85}' || c == '\u{a0}' || c == '\u{1680}' || c == '\u{3000}'
    ||| '\u{2000}' <= c <= '\u{200a}'
    ||| c == '\u{2028}' || c == '\u{2029}' || c == '\u{202f}' || c == '\u{205f}'
}

/// Whether there is nothing but white space.
pub open spec fn is_blank(s: Seq<char>) -> bool {
    forall|i: int| 0 <= i < s.len() ==> is_white(#[trigger] s[i])
}

/// Trimming takes away the white space before and after a text that neither begins nor ends
/// with it, and leaves that text as it is.
pub proof fn trimming_takes_white_space_away(front: Seq<char>, core: Seq<char>, back: Seq<char>)
    requires
        is_blank(front),
        is_blank(back),
        core.len() > 0 ==> !is_white(core[0]) && !is_white(core.last()),
    ensures
        trimmed(front + core + back) == core,
    decreases front.len() + back.len(),
{
    let s = front + core + back;
    if front.len() > 0 {
        assert(is_white(front[0]));
        assert(s[0] == front[0]);
        assert(s.skip(1) =~= front.skip(1) + core + back);
        assert forall|i: int| 0 <= i < front.skip(1).len() implies is_white(
            #[trigger] front.skip(1)[i],
        ) by {
            assert(front.skip(1)[i] == front[i + 1]);
        }
        trimming_takes_white_space_away(front.skip(1), core, back);
    } else if core.len() == 0 {
        assert(s =~= back);
        if back.len() > 0 {
            assert(is_white(back[0]));
            assert(s.skip(1) =~= front + core + back.skip(1));
            assert forall|i: int| 0 <= i < back.skip(1).len() implies is_white(
                #[trigger] back.skip(1)[i],
            ) by {
                assert(back.skip(1)[i] == back[i + 1]);
            }
            trimming_takes_white_space_away(front, core, back.skip(1));
        } else {
            assert(s =~= core);
        }
    } else {
        assert(s[0] == core[0]);
        assert(trim_start(s) == s);
        lemma_blank_end(core, back);
        assert(s =~= core + back);
    }
}

proof fn lemma_blank_end(core: Seq<char>, back: Seq<char>)
    requires
        is_blank(back),
        core.len() > 0,
        !is_white(core.last()),
    ensures
        trim_end(core + back) == core,
    decreases back.len(),
{
    let s = core + back;
    if back.len() > 0 {
        assert(is_white(back[back.len() - 1]));
        assert(s.drop_last() =~= core + back.drop_last());
        assert forall|i: int| 0 <= i < back.drop_last().len() implies is_white(
            #[trigger] back.drop_last()[i],
        ) by {
            assert(back.drop_last()[i] == back[i]);
        }
        lemma_blank_end(core, back.drop_last());
    } else {
        assert(s =~= core);
    }
}

// ---------------------------------------------------------------------------
// Pieces
// ---------------------------------------------------------------------------

/// A text without a separator is one piece, the whole text.
pub proof fn text_without_separator_is_one_piece(s: Seq<char>, p: spec_fn(char) -> bool)
    requires
        forall|i: int| 0 <= i < s.len() ==> !p(#[trigger] s[i]),
    ensures
        pieces(s, p) == seq![s],
{
    lemma_first_where(s, p);
}

/// The pieces of two texts with a separator between them are those of the one and then those
/// of the other.
pub proof fn separator_parts_the_pieces(
    a: Seq<char>,
    c: char,
    b: Seq<char>,
    p: spec_fn(char) -> bool,
)
    requires
        p(c),
    ensures
        pieces(a.push(c) + b, p) == pieces(a, p) + pieces(b, p),
    decreases a.len(),
{
    let s = a.push(c) + b;
    let i = first_where(a, p);
    lemma_first_where(a, p);
    assert forall|k: int| 0 <= k < i implies !p(#[trigger] s[k]) by {
        assert(s[k] == a[k]);
    }
    if i < a.len() {
        assert(s[i] == a[i]);
    }
    lemma_first_where_at(s, p, i);
    if i == a.len() {
        assert(s.take(i) =~= a);
        assert(s.skip(i + 1) =~= b);
        assert(pieces(s, p) =~= pieces(a, p) + pieces(b, p));
    } else {
        assert(s.take(i) =~= a.take(i));
        assert(s.skip(i + 1) =~= a.skip(i + 1).push(c) + b);
        separator_parts_the_pieces(a.skip(i + 1), c, b, p);
        assert(pieces(s, p) =~= pieces(a, p) + pieces(b, p));
    }
}

/// A text is cut at the first of the characters, and not at all where there is none.
pub proof fn text_is_cut_at_the_first(a: Seq<char>, c: char, b: Seq<char>)
    requires
        !a.contains(c),
    ensures
        split_once(a.push(c) + b, c) == Some((a, b)),
        split_once(a, c) is None,
{
    let s = a.push(c) + b;
    assert forall|k: int| 0 <= k < a.len() implies !only(c)(#[trigger] s[k]) by {
        assert(s[k] == a[k]);
        assert(a.contains(a[k]));
    }
    assert(s[a.len() as int] == c);
    lemma_first_where_at(s, only(c), a.len() as int);
    assert(s.take(a.len() as int) =~= a);
    assert(s.skip(a.len() as int + 1) =~= b);
    assert forall|k: int| 0 <= k < a.len() implies !only(c)(#[trigger] a[k]) by {
        assert(a.contains(a[k]));
    }
    lemma_first_where_at(a, only(c), a.len() as int);
}

/// A text holds another exactly if it is that text with something before and after it.
pub proof fn text_holds_what_stands_in_it(s: Seq<char>, a: Seq<char>, part: Seq<char>, b: Seq<char>)
    ensures
        contains_text(a + part + b, part),
        contains_text(s, part) ==> exists|x: Seq<char>, y: Seq<char>|
            s == #[trigger] ((x + part) + y),
{
    let all = a + part + b;
    assert(all.subrange(a.len() as int, (a.len() + part.len()) as int) =~= part);
    assert(stands_at(all, part, a.len() as int));
    if contains_text(s, part) {
        let i = choose|i: int| stands_at(s, part, i);
        let (x, y) = (s.take(i), s.skip((i + part.len()) as int));
        assert forall|k: int| 0 <= k < part.len() implies s[i + k] == part[k] by {
            assert(s.subrange(i, i + part.len())[k] == part[k]);
        }
        assert(s =~= (x + part) + y);
    }
}

// ---------------------------------------------------------------------------
// Order
// ---------------------------------------------------------------------------

/// A text comes before every longer one that begins with it, and not after it.
pub proof fn shorter_text_comes_first(a: Seq<char>, b: Seq<char>)
    ensures
        text_le(a, a + b),
        b.len() > 0 ==> !text_le(a + b, a),
    decreases a.len(),
{
    if a.len() > 0 {
        assert((a + b).skip(1) =~= a.skip(1) + b);
        shorter_text_comes_first(a.skip(1), b);
    }
}

/// Where two texts part, the lesser character comes first, whatever follows.
pub proof fn first_difference_decides(
    front: Seq<char>,
    x: char,
    y: char,
    a: Seq<char>,
    b: Seq<char>,
)
    requires
        x < y,
    ensures
        text_le(front.push(x) + a, front.push(y) + b),
        !text_le(front.push(y) + b, front.push(x) + a),
    decreases front.len(),
{
    let (s, t) = (front.push(x) + a, front.push(y) + b);
    if front.len() > 0 {
        assert(s.skip(1) =~= front.skip(1).push(x) + a);
        assert(t.skip(1) =~= front.skip(1).push(y) + b);
        first_difference_decides(front.skip(1), x, y, a, b);
    }
}

// ---------------------------------------------------------------------------
// UTF-16
// ---------------------------------------------------------------------------

/// The units of two texts put together are those of the one and then those of the other.
pub proof fn units_are_written_in_order(a: Seq<char>, b: Seq<char>)
    ensures
        utf16_of(a + b) == utf16_of(a) + utf16_of(b),
    decreases b.len(),
{
    if b.len() == 0 {
        assert(a + b =~= a);
        assert(utf16_of(a) + utf16_of(b) =~= utf16_of(a));
    } else {
        units_are_written_in_order(a, b.drop_last());
        assert((a + b).drop_last() =~= a + b.drop_last());
        assert((a + b).last() == b.last());
        assert(utf16_of(a + b) =~= utf16_of(a) + utf16_of(b));
    }
}

/// A character is one unit, its code point, or a pair of halves that make it up.
pub proof fn character_is_a_unit_or_a_pair(c: char)
    ensures
        ({
            let u = utf16_of(seq![c]);
            &&& (c as int) < 0x10000 ==> u.len() == 1 && u[0] as int == c as int
            &&& c as int >= 0x10000 ==> {
                &&& u.len() == 2
                &&& 0xd800 <= u[0] < 0xdc00
                &&& 0xdc00 <= u[1] < 0xe000
                &&& 0x10000 + (u[0] - 0xd800) * 0x400 + (u[1] - 0xdc00) == c as int
            }
        }),
{
    let s = seq![c];
    let n = c as int;
    assert(s.drop_last() =~= Seq::<char>::empty());
    reveal_with_fuel(utf16_of, 2);
    assert(utf16_of(s) =~= units_of(c));
    if n >= 0x10000 {
        let (hi, lo) = ((n - 0x10000) / 0x400, (n - 0x10000) % 0x400);
        assert(0 <= hi < 0x400 && 0 <= lo < 0x400 && n == 0x10000 + hi * 0x400 + lo);
    }
}

/// A half without its partner stands for the replacement character, and what follows it is
/// read on its own.
pub proof fn lone_half_is_replaced(u: u16, rest: Seq<u16>)
    requires
        (0xdc00 <= u < 0xe000) || (0xd800 <= u < 0xdc00 && !(rest.len() > 0 && 0xdc00 <= rest[0]
            < 0xe000)),
    ensures
        utf16_text(seq![u] + rest) == seq!['\u{fffd}'] + utf16_text(rest),
{
    let all = seq![u] + rest;
    assert(all.skip(1) =~= rest);
    if all.len() >= 2 {
        assert(all[1] == rest[0]);
    }
}

/// Units are read up to the first zero, and to the end where there is none.
pub proof fn text_ends_at_the_first_zero(u: Seq<u16>)
    ensures
        0 <= first_zero(u) <= u.len(),
        first_zero(u) < u.len() ==> u[first_zero(u)] == 0,
        forall|k: int| 0 <= k < first_zero(u) ==> #[trigger] u[k] != 0,
    decreases u.len(),
{
    if u.len() > 0 && u[0] != 0 {
        text_ends_at_the_first_zero(u.skip(1));
        assert forall|k: int| 0 <= k < first_zero(u) implies #[trigger] u[k] != 0 by {
            if k > 0 {
                assert(u.skip(1)[k - 1] == u[k]);
            }
        }
    }
}

proof fn lemma_no_zero_units(s: Seq<char>)
    requires
        !s.contains('\0'),
    ensures
        forall|k: int| 0 <= k < utf16_of(s).len() ==> #[trigger] utf16_of(s)[k] != 0,
    decreases s.len(),
{
    if s.len() > 0 {
        assert forall|i: int| 0 <= i < s.drop_last().len() implies #[trigger] s.drop_last()[i]
            != '\0' by {
            assert(s.contains(s[i]));
        }
        lemma_no_zero_units(s.drop_last());
        let c = s.last();
        assert(s.contains(s[s.len() - 1]));
        let (a, b) = (utf16_of(s.drop_last()), utf16_of(seq![c]));
        character_is_a_unit_or_a_pair(c);
        units_are_written_in_order(s.drop_last(), seq![c]);
        assert(s.drop_last() + seq![c] =~= s);
        assert forall|k: int| 0 <= k < utf16_of(s).len() implies #[trigger] utf16_of(s)[k] != 0 by {
            if k < a.len() {
                assert(utf16_of(s)[k] == a[k]);
            } else {
                assert(utf16_of(s)[k] == b[k - a.len()]);
            }
        }
    }
}

/// A text that was written with a closing zero is read back up to it, whatever follows.
pub proof fn closed_text_is_read_back(s: Seq<char>, tail: Seq<u16>)
    requires
        !s.contains('\0'),
    ensures
        ({
            let u = utf16_of(s).push(0) + tail;
            utf16_text(u.take(first_zero(u))) == s
        }),
{
    let u = utf16_of(s).push(0) + tail;
    let n = utf16_of(s).len();
    lemma_no_zero_units(s);
    text_ends_at_the_first_zero(u);
    assert(u[n as int] == 0);
    if first_zero(u) < n {
        assert(u[first_zero(u)] == utf16_of(s)[first_zero(u)]);
    }
    assert(first_zero(u) == n);
    assert(u.take(first_zero(u)) =~= utf16_of(s) + Seq::<u16>::empty());
    utf16_front_reads_back(s, Seq::empty());
    assert(s + utf16_text(Seq::empty()) =~= s);
}

// ---------------------------------------------------------------------------
// JSON
// ---------------------------------------------------------------------------

/// Inside a JSON string text is escaped character by character, between quotes.
pub proof fn json_is_escaped_in_order(a: Seq<char>, b: Seq<char>)
    ensures
        json_chars(a + b) == json_chars(a) + json_chars(b),
        json_quoted(a) == seq!['"'] + json_chars(a) + seq!['"'],
    decreases b.len(),
{
    if b.len() == 0 {
        assert(a + b =~= a);
        assert(json_chars(a) + json_chars(b) =~= json_chars(a));
    } else {
        json_is_escaped_in_order(a, b.drop_last());
        assert((a + b).drop_last() =~= a + b.drop_last());
        assert((a + b).last() == b.last());
        assert(json_chars(a + b) =~= json_chars(a) + json_chars(b));
    }
}

/// Quotes, backslashes and the usual control characters have a letter of their own, other
/// control characters are written by number, and everything else is itself.
pub proof fn json_escapes_what_it_must(c: char)
    ensures
        ({
            let s = json_chars(seq![c]);
            &&& c == '"' || c == '\\' ==> s == seq!['\\', c]
            &&& c == '\u{8}' ==> s == seq!['\\', 'b']
            &&& c == '\t' ==> s == seq!['\\', 't']
            &&& c == '\n' ==> s == seq!['\\', 'n']
            &&& c == '\u{c}' ==> s == seq!['\\', 'f']
            &&& c == '\r' ==> s == seq!['\\', 'r']
            &&& c >= ' ' && c != '"' && c != '\\' ==> s == seq![c]
            &&& c < ' ' && c != '\u{8}' && c != '\t' && c != '\n' && c != '\u{c}' && c != '\r'
                ==> s.len() == 6 && s.take(4) == seq!['\\', 'u', '0', '0'] && worth(s[4]) * 16
                + worth(s[5]) == c as int
        }),
{
    let s = json_chars(seq![c]);
    assert(seq![c].drop_last() =~= Seq::<char>::empty());
    reveal_with_fuel(json_chars, 2);
    assert(s =~= json_char(c));
    if s.len() == 6 {
        let n = c as int;
        assert(s.take(4) =~= seq!['\\', 'u', '0', '0']);
        assert(worth(s[4]) == n / 16);
        assert(worth(s[5]) == n % 16);
    }
}

} // verus!
