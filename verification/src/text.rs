//! Text utilities: UTF-8 decoding of payload bytes, character-level
//! string equality, and splitting instruction text at commas.

use vstd::prelude::*;
use vstd::string::*;
use vstd::utf8::*;

verus! {

/// Relies on `String::from_utf8` (std): returns the text whose UTF-8
/// encoding is exactly the given bytes, or nothing when the bytes are
/// not valid UTF-8.
#[verifier::external_body]
pub fn bytes_to_string(b: &[u8]) -> (r: Option<String>)
    ensures
        r is Some <==> valid_utf8(b@),
        r matches Some(s) ==> s@ == decode_utf8(b@),
{
    match String::from_utf8(b.to_vec()) {
        Ok(s) => Some(s),
        Err(_) => None,
    }
}

/// Character-by-character string comparison.
pub fn str_eq(a: &str, b: &str) -> (r: bool)
    ensures
        r == (a@ == b@),
{
    let na = a.unicode_len();
    let nb = b.unicode_len();
    if na != nb {
        proof {
            assert(a@.len() != b@.len());
        }
        return false;
    }
    let mut i: usize = 0;
    while i < na
        invariant
            i <= na,
            na == a@.len(),
            na == b@.len(),
            forall|k: int| 0 <= k < i ==> a@[k] == b@[k],
        decreases na - i,
    {
        if a.get_char(i) != b.get_char(i) {
            return false;
        }
        i = i + 1;
    }
    proof {
        assert(a@ =~= b@);
    }
    true
}

/// The index of the first comma in `s`, or a negative value when `s`
/// holds none.
pub open spec fn first_comma(s: Seq<char>) -> int
    decreases s.len(),
{
    if s.len() == 0 {
        -1
    } else if s[0] == ',' {
        0
    } else {
        let r = first_comma(s.drop_first());
        if r < 0 {
            -1
        } else {
            r + 1
        }
    }
}

pub proof fn lemma_first_comma_bounds(s: Seq<char>)
    ensures
        -1 <= first_comma(s) < s.len() || (s.len() == 0 && first_comma(s) == -1),
        first_comma(s) >= 0 ==> s[first_comma(s)] == ',',
    decreases s.len(),
{
    if s.len() > 0 && s[0] != ',' {
        lemma_first_comma_bounds(s.drop_first());
    }
}

/// A comma at `k`, with none before it, is the first comma.
pub proof fn lemma_first_comma_at(s: Seq<char>, k: int)
    requires
        0 <= k < s.len(),
        s[k] == ',',
        forall|m: int| 0 <= m < k ==> s[m] != ',',
    ensures
        first_comma(s) == k,
    decreases s.len(),
{
    if k > 0 {
        lemma_first_comma_at(s.drop_first(), k - 1);
    }
}

pub proof fn lemma_first_comma_none(s: Seq<char>)
    requires
        forall|m: int| 0 <= m < s.len() ==> s[m] != ',',
    ensures
        first_comma(s) == -1,
    decreases s.len(),
{
    if s.len() > 0 {
        lemma_first_comma_none(s.drop_first());
    }
}

/// `s` split at every comma: one more field than there are commas, each
/// field free of commas, in order.
pub open spec fn split_commas(s: Seq<char>) -> Seq<Seq<char>>
    decreases s.len(),
    via split_commas_decreases
{
    let i = first_comma(s);
    if i < 0 {
        seq![s]
    } else {
        seq![s.take(i)] + split_commas(s.skip(i + 1))
    }
}

#[via_fn]
proof fn split_commas_decreases(s: Seq<char>) {
    lemma_first_comma_bounds(s);
}

pub open spec fn views_of(v: Seq<String>) -> Seq<Seq<char>> {
    v.map_values(|x: String| x@)
}

/// Splits `s` at its commas, in order.
pub fn split_commas_exec(s: &str) -> (fields: Vec<String>)
    ensures
        views_of(fields@) == split_commas(s@),
{
    let n = s.unicode_len();
    let mut fields: Vec<String> = Vec::new();
    let mut start: usize = 0;
    let mut i: usize = 0;
    proof {
        assert(s@.subrange(0, n as int) =~= s@);
        assert(views_of(fields@) + split_commas(s@.subrange(0, n as int)) =~= split_commas(s@));
    }
    while i < n
        invariant
            start <= i <= n,
            n == s@.len(),
            views_of(fields@) + split_commas(s@.subrange(start as int, n as int)) == split_commas(
                s@,
            ),
            forall|k: int| start <= k < i ==> s@[k] != ',',
        decreases n - i,
    {
        let c = s.get_char(i);
        if c == ',' {
            let f = s.substring_char(start, i);
            let ghost old_fields = fields@;
            fields.push(String::from_str(f));
            proof {
                let rest = s@.subrange(start as int, n as int);
                lemma_first_comma_at(rest, i - start);
                assert(rest.take(i - start) =~= s@.subrange(start as int, i as int));
                assert(rest.skip(i - start + 1) =~= s@.subrange(i + 1, n as int));
                assert(split_commas(rest) == seq![s@.subrange(start as int, i as int)]
                    + split_commas(s@.subrange(i + 1, n as int)));
                assert(views_of(fields@) =~= views_of(old_fields) + seq![
                    s@.subrange(start as int, i as int),
                ]);
                assert(views_of(fields@) + split_commas(s@.subrange(i + 1, n as int))
                    =~= views_of(old_fields) + split_commas(rest));
            }
            start = i + 1;
        }
        i = i + 1;
    }
    let f = s.substring_char(start, n);
    let ghost old_fields = fields@;
    fields.push(String::from_str(f));
    proof {
        let rest = s@.subrange(start as int, n as int);
        lemma_first_comma_none(rest);
        assert(split_commas(rest) == seq![rest]);
        assert(views_of(fields@) =~= views_of(old_fields) + seq![rest]);
        assert(views_of(fields@) =~= views_of(old_fields) + split_commas(rest));
    }
    fields
}

} // verus!
