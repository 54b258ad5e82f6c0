//! Decimal text encoding of the ledger's integer values.
//!
//! Every persisted record value is the base-10 ASCII rendering of a
//! `u32`. This module defines what a decimal digit string means
//! (`dec_val`), the canonical rendering of a number (`dec_chars`), the
//! executable encoder and parser, and the round-trip law that a written
//! value reads back unchanged.

use vstd::prelude::*;
use vstd::string::*;

verus! {

pub open spec fn is_digit_char(c: char) -> bool {
    c == '0' || c == '1' || c == '2' || c == '3' || c == '4' || c == '5' || c == '6' || c == '7'
        || c == '8' || c == '9'
}

/// The numeric value of a digit character; ten for anything else.
pub open spec fn digit_val(c: char) -> int {
    if c == '0' {
        0
    } else if c == '1' {
        1
    } else if c == '2' {
        2
    } else if c == '3' {
        3
    } else if c == '4' {
        4
    } else if c == '5' {
        5
    } else if c == '6' {
        6
    } else if c == '7' {
        7
    } else if c == '8' {
        8
    } else if c == '9' {
        9
    } else {
        10
    }
}

/// The digit character for a value below ten; '9' for anything else.
pub open spec fn digit_char(d: int) -> char {
    if d == 0 {
        '0'
    } else if d == 1 {
        '1'
    } else if d == 2 {
        '2'
    } else if d == 3 {
        '3'
    } else if d == 4 {
        '4'
    } else if d == 5 {
        '5'
    } else if d == 6 {
        '6'
    } else if d == 7 {
        '7'
    } else if d == 8 {
        '8'
    } else {
        '9'
    }
}

pub open spec fn all_digits(s: Seq<char>) -> bool {
    forall|i: int| 0 <= i < s.len() ==> is_digit_char(s[i])
}

/// The value of a digit string, most significant digit first.
pub open spec fn dec_val(s: Seq<char>) -> int
    decreases s.len(),
{
    if s.len() == 0 {
        0
    } else {
        dec_val(s.drop_last()) * 10 + digit_val(s.last())
    }
}

/// The canonical decimal rendering of a number: no sign, no leading
/// zero except for the number zero itself.
pub open spec fn dec_chars(n: nat) -> Seq<char>
    decreases n,
{
    if n < 10 {
        seq![digit_char(n as int)]
    } else {
        dec_chars(n / 10).push(digit_char((n % 10) as int))
    }
}

/// What `str::parse::<u32>` accepts: an optional leading '+', then one
/// or more decimal digits whose value fits in a `u32`.
pub open spec fn parse_u32(s: Seq<char>) -> Option<u32> {
    let t = if s.len() >= 1 && s[0] == '+' {
        s.drop_first()
    } else {
        s
    };
    if t.len() == 0 || !all_digits(t) || dec_val(t) > u32::MAX {
        None
    } else {
        Some(dec_val(t) as u32)
    }
}

pub proof fn lemma_dec_val_nonneg(s: Seq<char>)
    requires
        all_digits(s),
    ensures
        dec_val(s) >= 0,
    decreases s.len(),
{
    if s.len() > 0 {
        lemma_dec_val_nonneg(s.drop_last());
    }
}

/// Extending a digit string to the right never shrinks its value.
pub proof fn lemma_dec_val_take_le(s: Seq<char>, j: int)
    requires
        all_digits(s),
        0 <= j <= s.len(),
    ensures
        dec_val(s.take(j)) <= dec_val(s),
    decreases s.len(),
{
    if j == s.len() {
        assert(s.take(j) =~= s);
    } else {
        let d = s.drop_last();
        assert(s.take(j) =~= d.take(j));
        lemma_dec_val_take_le(d, j);
        lemma_dec_val_nonneg(d);
        assert(dec_val(d) <= dec_val(d) * 10) by (nonlinear_arith)
            requires
                dec_val(d) >= 0,
        ;
    }
}

/// The canonical rendering consists of digits and reads back as the
/// number it renders.
pub proof fn lemma_dec_chars_roundtrip(n: nat)
    ensures
        dec_chars(n).len() >= 1,
        all_digits(dec_chars(n)),
        dec_val(dec_chars(n)) == n,
        dec_chars(n)[0] != '+',
    decreases n,
{
    if n < 10 {
        let s = dec_chars(n);
        assert(dec_val(Seq::<char>::empty()) == 0);
        assert(s.drop_last() =~= Seq::<char>::empty());
        assert(s.last() == digit_char(n as int));
        assert(dec_val(s) == dec_val(s.drop_last()) * 10 + digit_val(s.last()));
        assert(dec_val(s) == digit_val(digit_char(n as int)));
    } else {
        vstd::arithmetic::div_mod::lemma_fundamental_div_mod(n as int, 10);
        lemma_dec_chars_roundtrip(n / 10);
        let p = dec_chars(n / 10);
        let s = dec_chars(n);
        assert(s.drop_last() =~= p);
        assert(s[0] == p[0]);
        assert(dec_val(s) == dec_val(p) * 10 + digit_val(digit_char((n % 10) as int)));
    }
}

/// Parsing the canonical rendering of `v` gives back exactly `v`.
pub proof fn lemma_parse_dec_chars(v: u32)
    ensures
        parse_u32(dec_chars(v as nat)) == Some(v),
{
    lemma_dec_chars_roundtrip(v as nat);
}

fn digit_str(d: u32) -> (r: &'static str)
    requires
        d < 10,
    ensures
        r@ =~= seq![digit_char(d as int)],
{
    proof {
        reveal_strlit("0");
        reveal_strlit("1");
        reveal_strlit("2");
        reveal_strlit("3");
        reveal_strlit("4");
        reveal_strlit("5");
        reveal_strlit("6");
        reveal_strlit("7");
        reveal_strlit("8");
        reveal_strlit("9");
    }
    match d {
        0 => "0",
        1 => "1",
        2 => "2",
        3 => "3",
        4 => "4",
        5 => "5",
        6 => "6",
        7 => "7",
        8 => "8",
        _ => "9",
    }
}

/// Renders `v` in its canonical decimal form.
pub fn u32_to_dec_string(v: u32) -> (r: String)
    ensures
        r@ == dec_chars(v as nat),
    decreases v,
{
    if v < 10 {
        String::from_str(digit_str(v))
    } else {
        proof {
            assert(v / 10 < v) by (nonlinear_arith)
                requires
                    v >= 10,
            ;
        }
        let pre = u32_to_dec_string(v / 10);
        let last = digit_str(v % 10);
        let r = pre.concat(last);
        proof {
            assert(r@ =~= dec_chars(v as nat));
        }
        r
    }
}

/// Parses decimal text as `str::parse::<u32>` would: an optional
/// leading '+', then digits, rejecting overflow and anything else.
pub fn parse_u32_str(s: &str) -> (r: Option<u32>)
    ensures
        r == parse_u32(s@),
{
    let n = s.unicode_len();
    let start: usize = if n > 0 && s.get_char(0) == '+' {
        1
    } else {
        0
    };
    let ghost t = if s@.len() >= 1 && s@[0] == '+' {
        s@.drop_first()
    } else {
        s@
    };
    proof {
        assert(t =~= s@.subrange(start as int, n as int));
    }
    if start >= n {
        return None;
    }
    // First pass: every remaining character must be a digit.
    let mut i: usize = start;
    while i < n
        invariant
            start <= i <= n,
            n == s@.len(),
            start <= 1,
            (start == 1) == (s@.len() >= 1 && s@[0] == '+'),
            t == s@.subrange(start as int, n as int),
            forall|k: int| start <= k < i ==> is_digit_char(s@[k]),
        decreases n - i,
    {
        let c = s.get_char(i);
        let d = char_digit(c);
        if d >= 10 {
            proof {
                if start == 1 {
                    assert(t =~= s@.drop_first());
                } else {
                    assert(t =~= s@);
                }
                assert(t[i - start] == s@[i as int]);
                assert(!is_digit_char(t[i - start]));
                assert(!all_digits(t));
                assert(parse_u32(s@) is None);
            }
            return None;
        }
        i = i + 1;
    }
    proof {
        assert(forall|k: int| 0 <= k < t.len() ==> is_digit_char(#[trigger] t[k]));
    }
    // Second pass: accumulate, rejecting values that overflow a u32.
    let mut acc: u32 = 0;
    let mut j: usize = start;
    while j < n
        invariant
            start <= j <= n,
            n == s@.len(),
            start <= 1,
            (start == 1) == (s@.len() >= 1 && s@[0] == '+'),
            t == s@.subrange(start as int, n as int),
            all_digits(t),
            acc == dec_val(t.take(j - start)),
        decreases n - j,
    {
        let c = s.get_char(j);
        let d = char_digit(c);
        proof {
            assert(t[j - start] == s@[j as int]);
        }
        if acc > (u32::MAX - d) / 10 {
            proof {
                let p = t.take(j - start);
                let q = t.take(j + 1 - start);
                assert(q.drop_last() =~= p);
                assert(dec_val(q) == dec_val(p) * 10 + d);
                assert(dec_val(p) * 10 + d > u32::MAX) by (nonlinear_arith)
                    requires
                        dec_val(p) > (u32::MAX - d) / 10,
                        dec_val(p) >= 0,
                        0 <= d < 10,
                ;
                lemma_dec_val_take_le(t, j + 1 - start);
                assert(dec_val(t) > u32::MAX);
                if start == 1 {
                    assert(t =~= s@.drop_first());
                } else {
                    assert(t =~= s@);
                }
                assert(parse_u32(s@) is None);
            }
            return None;
        }
        proof {
            let p = t.take(j - start);
            let q = t.take(j + 1 - start);
            assert(q.drop_last() =~= p);
            assert(acc * 10 + d <= u32::MAX) by (nonlinear_arith)
                requires
                    acc <= (u32::MAX - d) / 10,
                    0 <= d < 10,
                    acc >= 0,
            ;
        }
        acc = acc * 10 + d;
        j = j + 1;
    }
    proof {
        assert(t.take(n - start) =~= t);
        if start == 1 {
            assert(t =~= s@.drop_first());
        } else {
            assert(t =~= s@);
        }
        assert(t.len() > 0);
        assert(parse_u32(s@) == Some(dec_val(t) as u32));
    }
    Some(acc)
}

/// The numeric value of a digit character; ten for anything else.
fn char_digit(c: char) -> (d: u32)
    ensures
        d == digit_val(c),
        d < 10 <==> is_digit_char(c),
{
    match c {
        '0' => 0,
        '1' => 1,
        '2' => 2,
        '3' => 3,
        '4' => 4,
        '5' => 5,
        '6' => 6,
        '7' => 7,
        '8' => 8,
        '9' => 9,
        _ => 10,
    }
}

} // verus!
