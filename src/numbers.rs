//! Numerals of the protocol: identifiers in hexadecimal and signed decimal
//! integers, their decoding and the texts that encode them.
use vstd::prelude::*;
use vstd::arithmetic::div_mod::{lemma_fundamental_div_mod, lemma_mod_breakdown};
use vstd::string::*;

use crate::text::{chars_of, is_whitespace, plain};

verus! {

pub open spec fn is_hex_digit(c: char) -> bool {
    let v = c as u32;
    (48 <= v <= 57) || (65 <= v <= 70) || (97 <= v <= 102)
}

/// The value of a hexadecimal digit (either case).
pub open spec fn hex_digit_value(c: char) -> nat {
    let v = c as u32;
    if 48 <= v <= 57 {
        (v - 48) as nat
    } else if 65 <= v <= 70 {
        (v - 55) as nat
    } else {
        (v - 87) as nat
    }
}

pub open spec fn all_hex(s: Seq<char>) -> bool {
    forall|i: int| 0 <= i < s.len() ==> is_hex_digit(#[trigger] s[i])
}

/// The value of a string of hexadecimal digits, most significant first.
pub open spec fn hex_value(s: Seq<char>) -> nat
    decreases s.len(),
{
    if s.len() == 0 {
        0
    } else {
        hex_value(s.drop_last()) * 16 + hex_digit_value(s.last())
    }
}

/// A token without its optional `0x` prefix.
pub open spec fn hex_body(tok: Seq<char>) -> Seq<char> {
    if tok.len() >= 2 && tok[0] == '0' && tok[1] == 'x' {
        tok.subrange(2, tok.len() as int)
    } else {
        tok
    }
}

/// The identifier that a token names: after an optional `0x`, one or more
/// hexadecimal digits whose value fits in 32 bits; `None` for any other token.
pub open spec fn id_of(tok: Seq<char>) -> Option<u32> {
    let d = hex_body(tok);
    if d.len() > 0 && all_hex(d) && hex_value(d) <= u32::MAX {
        Some(hex_value(d) as u32)
    } else {
        None
    }
}

pub open spec fn is_dec_digit(c: char) -> bool {
    48 <= c as u32 <= 57
}

pub open spec fn all_dec(s: Seq<char>) -> bool {
    forall|i: int| 0 <= i < s.len() ==> is_dec_digit(#[trigger] s[i])
}

/// The value of a string of decimal digits, most significant first.
pub open spec fn dec_value(s: Seq<char>) -> nat
    decreases s.len(),
{
    if s.len() == 0 {
        0
    } else {
        dec_value(s.drop_last()) * 10 + ((s.last() as u32) - 48) as nat
    }
}

/// The `i32` that a token writes in decimal, with an optional sign, as
/// `i32::from_str` reads it; `None` for any other token.
pub open spec fn int_of(tok: Seq<char>) -> Option<i32> {
    if tok.len() > 0 && tok[0] == '-' {
        let d = tok.drop_first();
        if d.len() > 0 && all_dec(d) && dec_value(d) <= 0x8000_0000 {
            Some((0 - dec_value(d)) as i32)
        } else {
            None
        }
    } else {
        let d = if tok.len() > 0 && tok[0] == '+' {
            tok.drop_first()
        } else {
            tok
        };
        if d.len() > 0 && all_dec(d) && dec_value(d) <= i32::MAX {
            Some(dec_value(d) as i32)
        } else {
            None
        }
    }
}

/// The uppercase hexadecimal digit for `d < 16`.
pub open spec fn hex_char(d: nat) -> char {
    if d < 10 { dec_char(d) } else if d == 10 { 'A' } else if d == 11 { 'B' } else if d == 12 { 'C' }
    else if d == 13 { 'D' } else if d == 14 { 'E' } else { 'F' }
}

/// The decimal digit for `d < 10`.
pub open spec fn dec_char(d: nat) -> char {
    if d == 0 { '0' } else if d == 1 { '1' } else if d == 2 { '2' } else if d == 3 { '3' }
    else if d == 4 { '4' } else if d == 5 { '5' } else if d == 6 { '6' } else if d == 7 { '7' }
    else if d == 8 { '8' } else { '9' }
}

/// The last `n` hexadecimal digits of `v`, zeros in front.
pub open spec fn hex_fixed(v: nat, n: nat) -> Seq<char>
    decreases n,
{
    if n == 0 {
        Seq::empty()
    } else {
        hex_fixed(v / 16, (n - 1) as nat).push(hex_char(v % 16))
    }
}

/// How the peer writes an identifier: `0x` and eight uppercase digits.
pub open spec fn id_text(v: u32) -> Seq<char> {
    seq!['0', 'x'] + hex_fixed(v as nat, 8)
}

/// The decimal digits of `n`, without leading zeros.
pub open spec fn dec_digits(n: nat) -> Seq<char>
    decreases n,
{
    if n < 10 {
        seq![dec_char(n)]
    } else {
        dec_digits(n / 10).push(dec_char(n % 10))
    }
}

/// An integer in decimal, with `-` in front when it is negative.
pub open spec fn int_text(v: int) -> Seq<char> {
    if v < 0 {
        seq!['-'] + dec_digits((0 - v) as nat)
    } else {
        dec_digits(v as nat)
    }
}

pub open spec fn pow16(n: nat) -> nat
    decreases n,
{
    if n == 0 {
        1
    } else {
        16 * pow16((n - 1) as nat)
    }
}

proof fn lemma_hex_fixed(v: nat, n: nat)
    ensures
        hex_fixed(v, n).len() == n,
        all_hex(hex_fixed(v, n)),
        hex_value(hex_fixed(v, n)) == v % pow16(n),
    decreases n,
{
    if n > 0 {
        let m = (n - 1) as nat;
        lemma_hex_fixed(v / 16, m);
        let s = hex_fixed(v, n);
        assert(s.drop_last() == hex_fixed(v / 16, m));
        let d = v % 16;
        assert(is_hex_digit(hex_char(d)) && hex_digit_value(hex_char(d)) == d) by {
            assert(0 <= d < 16);
        }
        assert(pow16(m) > 0) by {
            lemma_pow16_positive(m);
        }
        lemma_mod_breakdown(v as int, 16, pow16(m) as int);
    }
}

proof fn lemma_pow16_positive(n: nat)
    ensures
        pow16(n) > 0,
    decreases n,
{
    if n > 0 {
        lemma_pow16_positive((n - 1) as nat);
    }
}

/// Decoding undoes encoding: the text that the peer writes for an
/// identifier reads back as that identifier.
pub proof fn lemma_id_round_trip(v: u32)
    ensures
        id_of(id_text(v)) == Some(v),
{
    lemma_hex_fixed(v as nat, 8);
    let t = id_text(v);
    assert(hex_body(t) =~= hex_fixed(v as nat, 8));
    reveal_with_fuel(pow16, 9);
    assert(pow16(8) == 0x1_0000_0000);
    assert(v as nat % pow16(8) == v as nat);
}

/// A token whose digits hold a character that is not a hexadecimal digit
/// names no identifier.
pub proof fn lemma_malformed_id(tok: Seq<char>, i: int)
    requires
        0 <= i < hex_body(tok).len(),
        !is_hex_digit(hex_body(tok)[i]),
    ensures
        id_of(tok) is None,
{
}

proof fn lemma_dec_char(d: nat)
    requires
        d < 10,
    ensures
        dec_char(d) as u32 == 48 + d,
        is_dec_digit(dec_char(d)),
{
}

proof fn lemma_dec_digits(n: nat)
    ensures
        dec_digits(n).len() > 0,
        all_dec(dec_digits(n)),
        dec_value(dec_digits(n)) == n,
        dec_digits(n)[0] != '-' && dec_digits(n)[0] != '+',
    decreases n,
{
    if n < 10 {
        lemma_dec_char(n);
        let s = dec_digits(n);
        assert(s.drop_last() =~= Seq::<char>::empty());
        assert(s.last() == dec_char(n));
        assert(dec_value(s) == dec_value(s.drop_last()) * 10 + ((s.last() as u32) - 48) as nat);
    } else {
        lemma_dec_char(n % 10);
        lemma_dec_digits(n / 10);
        let s = dec_digits(n);
        assert(s.drop_last() == dec_digits(n / 10));
        assert(s.last() == dec_char(n % 10));
        assert(dec_value(s) == dec_value(s.drop_last()) * 10 + ((s.last() as u32) - 48) as nat);
        lemma_fundamental_div_mod(n as int, 10);
        assert(all_dec(s)) by {
            assert forall|i: int| 0 <= i < s.len() implies is_dec_digit(#[trigger] s[i]) by {
                if i < s.len() - 1 {
                    assert(s[i] == dec_digits(n / 10)[i]);
                }
            }
        }
    }
}

/// The decimal text of an `i32` reads back as that integer.
pub proof fn lemma_int_round_trip(v: i32)
    ensures
        int_of(int_text(v as int)) == Some(v),
{
    if v < 0 {
        let n = (0 - v) as nat;
        lemma_dec_digits(n);
        assert((seq!['-'] + dec_digits(n)).drop_first() =~= dec_digits(n));
    } else {
        lemma_dec_digits(v as nat);
    }
}

proof fn lemma_hex_prefix_le(s: Seq<char>, k: int)
    requires
        all_hex(s),
        0 <= k <= s.len(),
    ensures
        hex_value(s.subrange(0, k)) <= hex_value(s),
    decreases s.len(),
{
    if k < s.len() {
        let t = s.drop_last();
        assert(all_hex(t)) by {
            assert forall|i: int| 0 <= i < t.len() implies is_hex_digit(#[trigger] t[i]) by {
                assert(t[i] == s[i]);
            }
        }
        lemma_hex_prefix_le(t, k);
        assert(t.subrange(0, k) =~= s.subrange(0, k));
    } else {
        assert(s.subrange(0, k) =~= s);
    }
}

proof fn lemma_dec_prefix_le(s: Seq<char>, k: int)
    requires
        all_dec(s),
        0 <= k <= s.len(),
    ensures
        dec_value(s.subrange(0, k)) <= dec_value(s),
    decreases s.len(),
{
    if k < s.len() {
        let t = s.drop_last();
        assert(all_dec(t)) by {
            assert forall|i: int| 0 <= i < t.len() implies is_dec_digit(#[trigger] t[i]) by {
                assert(t[i] == s[i]);
            }
        }
        lemma_dec_prefix_le(t, k);
        assert(t.subrange(0, k) =~= s.subrange(0, k));
    } else {
        assert(s.subrange(0, k) =~= s);
    }
}

/// Reads `cs[lo..hi]` as an identifier (`id_of`).
pub fn id_at(cs: &Vec<char>, lo: usize, hi: usize) -> (r: Option<u32>)
    requires
        lo <= hi <= cs.len(),
    ensures
        r == id_of(cs@.subrange(lo as int, hi as int)),
{
    let ghost tok = cs@.subrange(lo as int, hi as int);
    let start: usize = if hi - lo >= 2 && cs[lo] == '0' && cs[lo + 1] == 'x' {
        lo + 2
    } else {
        lo
    };
    let ghost d = hex_body(tok);
    assert(d =~= cs@.subrange(start as int, hi as int));
    if start == hi {
        return None;
    }
    let mut acc: u64 = 0;
    let mut i: usize = start;
    while i < hi
        invariant
            start <= i <= hi <= cs.len(),
            d == cs@.subrange(start as int, hi as int),
            d == hex_body(tok),
            tok == cs@.subrange(lo as int, hi as int),
            all_hex(cs@.subrange(start as int, i as int)),
            acc == hex_value(cs@.subrange(start as int, i as int)),
            acc <= u32::MAX,
        decreases hi - i,
    {
        let c = cs[i];
        let v = c as u32;
        let digit: u64 = if 48 <= v && v <= 57 {
            (v - 48) as u64
        } else if 65 <= v && v <= 70 {
            (v - 55) as u64
        } else if 97 <= v && v <= 102 {
            (v - 87) as u64
        } else {
            assert(!is_hex_digit(d[i - start]));
            return None;
        };
        let ghost prefix = cs@.subrange(start as int, i + 1);
        assert(prefix.drop_last() =~= cs@.subrange(start as int, i as int));
        assert(all_hex(prefix)) by {
            assert forall|j: int| 0 <= j < prefix.len() implies is_hex_digit(#[trigger] prefix[j]) by {
                if j < prefix.len() - 1 {
                    assert(prefix[j] == cs@.subrange(start as int, i as int)[j]);
                }
            }
        }
        acc = acc * 16 + digit;
        if acc > 0xFFFF_FFFF {
            proof {
                if all_hex(d) {
                    assert(d.subrange(0, i + 1 - start) =~= prefix);
                    lemma_hex_prefix_le(d, i + 1 - start);
                }
            }
            return None;
        }
        i += 1;
    }
    Some(acc as u32)
}

/// The value of the decimal digits `cs[lo..hi]` when there is at least one,
/// all are digits and the value is at most `limit`.
fn decimal_at(cs: &Vec<char>, lo: usize, hi: usize, limit: u64) -> (r: Option<u64>)
    requires
        lo <= hi <= cs.len(),
        limit <= 0x8000_0000,
    ensures
        r == ({
            let d = cs@.subrange(lo as int, hi as int);
            if d.len() > 0 && all_dec(d) && dec_value(d) <= limit {
                Some(dec_value(d) as u64)
            } else {
                None
            }
        }),
{
    let ghost d = cs@.subrange(lo as int, hi as int);
    if lo == hi {
        return None;
    }
    let mut acc: u64 = 0;
    let mut i: usize = lo;
    while i < hi
        invariant
            lo <= i <= hi <= cs.len(),
            d == cs@.subrange(lo as int, hi as int),
            all_dec(cs@.subrange(lo as int, i as int)),
            acc == dec_value(cs@.subrange(lo as int, i as int)),
            acc <= limit <= 0x8000_0000,
        decreases hi - i,
    {
        let c = cs[i];
        let v = c as u32;
        if v < 48 || v > 57 {
            assert(!is_dec_digit(d[i - lo]));
            return None;
        }
        let ghost prefix = cs@.subrange(lo as int, i + 1);
        assert(prefix.drop_last() =~= cs@.subrange(lo as int, i as int));
        assert(all_dec(prefix)) by {
            assert forall|j: int| 0 <= j < prefix.len() implies is_dec_digit(#[trigger] prefix[j]) by {
                if j < prefix.len() - 1 {
                    assert(prefix[j] == cs@.subrange(lo as int, i as int)[j]);
                }
            }
        }
        acc = acc * 10 + (v - 48) as u64;
        if acc > limit {
            proof {
                if all_dec(d) {
                    assert(d.subrange(0, i + 1 - lo) =~= prefix);
                    lemma_dec_prefix_le(d, i + 1 - lo);
                }
            }
            return None;
        }
        i += 1;
    }
    assert(cs@.subrange(lo as int, i as int) == d);
    Some(acc)
}

/// Reads `cs[lo..hi]` as a decimal `i32` (`int_of`).
pub fn int_at(cs: &Vec<char>, lo: usize, hi: usize) -> (r: Option<i32>)
    requires
        lo <= hi <= cs.len(),
    ensures
        r == int_of(cs@.subrange(lo as int, hi as int)),
{
    let ghost tok = cs@.subrange(lo as int, hi as int);
    if hi > lo && cs[lo] == '-' {
        assert(tok.drop_first() =~= cs@.subrange(lo + 1, hi as int));
        match decimal_at(cs, lo + 1, hi, 0x8000_0000) {
            Some(n) => Some((0 - (n as i64)) as i32),
            None => None,
        }
    } else {
        let start: usize = if hi > lo && cs[lo] == '+' {
            assert(tok.drop_first() =~= cs@.subrange(lo + 1, hi as int));
            lo + 1
        } else {
            lo
        };
        match decimal_at(cs, start, hi, 0x7FFF_FFFF) {
            Some(n) => Some(n as i32),
            None => None,
        }
    }
}

/// Appends the decimal digits of `n` to `s`.
fn push_digits(s: &mut String, n: u64)
    ensures
        final(s)@ == old(s)@ + dec_digits(n as nat),
    decreases n,
{
    if n >= 10 {
        push_digits(s, n / 10);
    }
    let d = (n % 10) as usize;
    let digits = "0123456789";
    proof {
        reveal_strlit("0123456789");
    }
    let one = digits.substring_char(d, d + 1);
    assert(one@ =~= seq![dec_char(d as nat)]);
    s.append(one);
    proof {
        if n >= 10 {
            assert(dec_digits(n as nat) == dec_digits((n / 10) as nat).push(dec_char(d as nat)));
        }
    }
    assert(final(s)@ =~= old(s)@ + dec_digits(n as nat));
}

/// The decimal text of `v` (`int_text`), as `to_string` writes it.
pub fn int_to_text(v: i64) -> (r: String)
    ensures
        r@ == int_text(v as int),
{
    let mut s = String::new();
    if v < 0 {
        let minus = "-";
        proof {
            reveal_strlit("-");
        }
        s.append(minus);
        let magnitude: u64 = if v == i64::MIN {
            0x8000_0000_0000_0000
        } else {
            (0 - v) as u64
        };
        push_digits(&mut s, magnitude);
        assert(s@ =~= int_text(v as int));
    } else {
        push_digits(&mut s, v as u64);
        assert(s@ =~= int_text(v as int));
    }
    s
}

/// The integer that a token writes in decimal, as the `from_str` of an
/// integer type with bounds `min` and `max` reads it: an optional sign (`-`
/// only where `min` is negative) and one or more digits.
pub open spec fn integer_of(tok: Seq<char>, min: int, max: int) -> Option<int> {
    if tok.len() > 0 && tok[0] == '-' {
        let d = tok.drop_first();
        if min < 0 && d.len() > 0 && all_dec(d) && dec_value(d) <= 0 - min {
            Some(0 - dec_value(d))
        } else {
            None
        }
    } else {
        let d = if tok.len() > 0 && tok[0] == '+' {
            tok.drop_first()
        } else {
            tok
        };
        if d.len() > 0 && all_dec(d) && dec_value(d) <= max {
            Some(dec_value(d) as int)
        } else {
            None
        }
    }
}

/// Reads a whole text as an integer between `min` and `max` (`integer_of`).
pub fn parse_integer(s: &str, min: i64, max: i64) -> (r: Option<i64>)
    requires
        -0x8000_0000 <= min <= 0 <= max <= 0x7FFF_FFFF,
    ensures
        r == match integer_of(s@, min as int, max as int) {
            Some(v) => Some(v as i64),
            None => None,
        },
{
    let cs = chars_of(s);
    let hi = cs.len();
    let ghost tok = s@;
    proof {
        assert(cs@.subrange(0, hi as int) =~= s@);
    }
    if hi > 0 && cs[0] == '-' {
        assert(tok.drop_first() =~= cs@.subrange(1, hi as int));
        if min == 0 {
            return None;
        }
        match decimal_at(&cs, 1, hi, (0 - min) as u64) {
            Some(n) => Some(0 - (n as i64)),
            None => None,
        }
    } else {
        let start: usize = if hi > 0 && cs[0] == '+' {
            assert(tok.drop_first() =~= cs@.subrange(1, hi as int));
            1
        } else {
            0
        };
        match decimal_at(&cs, start, hi, max as u64) {
            Some(n) => Some(n as i64),
            None => None,
        }
    }
}

/// The text of an identifier is a plain token.
pub proof fn lemma_id_text_plain(v: u32)
    ensures
        plain(id_text(v)),
{
    lemma_hex_fixed(v as nat, 8);
    let t = id_text(v);
    assert forall|i: int| 0 <= i < t.len() implies !is_whitespace(#[trigger] t[i]) by {
        if i >= 2 {
            assert(t[i] == hex_fixed(v as nat, 8)[i - 2]);
            assert(is_hex_digit(hex_fixed(v as nat, 8)[i - 2]));
        }
    }
}

/// The decimal text of an integer is a plain token of digits and `-`.
pub proof fn lemma_int_text_chars(v: int)
    ensures
        plain(int_text(v)),
        forall|i: int| 0 <= i < int_text(v).len() ==> #[trigger] int_text(v)[i] != '+' && int_text(v)[i] != 'x',
{
    let t = int_text(v);
    let d = if v < 0 { (0 - v) as nat } else { v as nat };
    lemma_dec_digits(d);
    assert forall|i: int| 0 <= i < t.len() implies !is_whitespace(#[trigger] t[i]) && t[i] != '+' && t[i] != 'x' by {
        if v < 0 {
            if i >= 1 {
                assert(t[i] == dec_digits(d)[i - 1]);
                assert(is_dec_digit(dec_digits(d)[i - 1]));
            }
        } else {
            assert(is_dec_digit(dec_digits(d)[i]));
        }
    }
}

} // verus!
