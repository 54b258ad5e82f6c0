//! Storage-address derivation for ledger records.
//!
//! Every record key is `prefix + kind_code + hashed identifying parts`,
//! where the prefix is the first six hex characters of the SHA-512
//! digest of the family name and each kind code is the first two hex
//! characters of the digest of the kind's name. Truncation lengths are
//! chosen so that every key is exactly 70 characters, whatever the
//! record kind.

use vstd::prelude::*;
use vstd::string::*;

verus! {

/// What `crypto`'s SHA-512 digest of a string, rendered as hexadecimal
/// text, returns. The digest depends on the input characters alone, so
/// the result carries a name rather than a definition.
pub uninterp spec fn sha512_hex_of(s: Seq<char>) -> Seq<char>;

/// The hex rendering of a SHA-512 digest, pinned to its 128 characters,
/// so that key lengths can be reasoned about away from any digest call.
pub open spec fn digest128(s: Seq<char>) -> Seq<char> {
    if sha512_hex_of(s).len() == 128 {
        sha512_hex_of(s)
    } else {
        Seq::new(128, |i: int| '0')
    }
}

/// Relies on `crypto::sha2::Sha512` through `crypto::digest::Digest`
/// (`input_str`, then `result_str`): the SHA-512 digest of the input
/// string, rendered as 128 lowercase hexadecimal (ASCII) characters and
/// a function of the input characters alone.
#[verifier::external_body]
fn sha512_hex(input: &str) -> (r: String)
    ensures
        r@ == sha512_hex_of(input@),
        r@.len() == 128,
        string_is_ascii(&r),
{
    let mut sha = crypto::sha2::Sha512::new();
    crypto::digest::Digest::input_str(&mut sha, input);
    crypto::digest::Digest::result_str(&mut sha)
}

/// The first `n` characters of the SHA-512 hex digest of `s`; empty when
/// more characters are requested than the digest has.
pub open spec fn spec_hash(s: Seq<char>, n: int) -> Seq<char> {
    if 0 <= n <= 128 {
        digest128(s).take(n)
    } else {
        Seq::<char>::empty()
    }
}

pub proof fn lemma_spec_hash_len(s: Seq<char>, n: int)
    requires
        0 <= n <= 128,
    ensures
        spec_hash(s, n).len() == n,
{
    assert(digest128(s).len() == 128);
}

/// The first `num` characters of the SHA-512 hex digest of `to_hash`,
/// or the empty string when `num` exceeds the digest's 128 characters.
pub fn hash(to_hash: &str, num: usize) -> (r: String)
    ensures
        r@ == spec_hash(to_hash@, num as int),
{
    let h = sha512_hex(to_hash);
    if num <= 128 {
        let s = h.as_str().substring_ascii(0, num);
        String::from_str(s)
    } else {
        String::new()
    }
}

/// The six-character namespace prefix owned by this ledger family.
pub open spec fn dgc_prefix() -> Seq<char> {
    spec_hash("dgc-core"@, 6)
}

pub fn get_dgc_prefix() -> (r: String)
    ensures
        r@ == dgc_prefix(),
        r@.len() == 6,
{
    let r = hash("dgc-core", 6);
    proof {
        lemma_spec_hash_len("dgc-core"@, 6);
    }
    r
}

pub open spec fn balance_address(identifier: Seq<char>) -> Seq<char> {
    dgc_prefix() + spec_hash("balance"@, 2) + spec_hash(identifier, 62)
}

pub open spec fn exchange_address(currency: Seq<char>) -> Seq<char> {
    dgc_prefix() + spec_hash("exchange"@, 2) + spec_hash(currency, 62)
}

pub open spec fn credit_address(identifier: Seq<char>, currency: Seq<char>) -> Seq<char> {
    dgc_prefix() + spec_hash("credit"@, 2) + spec_hash(currency, 2) + spec_hash(identifier, 60)
}

pub open spec fn sell_address(currency: Seq<char>, timestamp: Seq<char>) -> Seq<char> {
    dgc_prefix() + spec_hash("sell"@, 2) + spec_hash(currency, 2) + spec_hash(timestamp, 60)
}

pub open spec fn buy_address(currency: Seq<char>, timestamp: Seq<char>) -> Seq<char> {
    dgc_prefix() + spec_hash("buy"@, 2) + spec_hash(currency, 2) + spec_hash(timestamp, 60)
}

pub fn make_balance_state_address(identifier: &str) -> (r: String)
    ensures
        r@ == balance_address(identifier@),
        r@.len() == 70,
{
    let a = hash("dgc-core", 6);
    let b = hash("balance", 2);
    let c = hash(identifier, 62);
    proof {
        lemma_spec_hash_len("dgc-core"@, 6);
        lemma_spec_hash_len("balance"@, 2);
        lemma_spec_hash_len(identifier@, 62);
    }
    let ab = a.concat(b.as_str());
    ab.concat(c.as_str())
}

pub fn make_exchange_state_address(currency: &str) -> (r: String)
    ensures
        r@ == exchange_address(currency@),
        r@.len() == 70,
{
    let a = hash("dgc-core", 6);
    let b = hash("exchange", 2);
    let c = hash(currency, 62);
    proof {
        lemma_spec_hash_len("dgc-core"@, 6);
        lemma_spec_hash_len("exchange"@, 2);
        lemma_spec_hash_len(currency@, 62);
    }
    let ab = a.concat(b.as_str());
    ab.concat(c.as_str())
}

pub fn make_credit_state_address(identifier: &str, currency: &str) -> (r: String)
    ensures
        r@ == credit_address(identifier@, currency@),
        r@.len() == 70,
{
    let a = hash("dgc-core", 6);
    let b = hash("credit", 2);
    let c = hash(currency, 2);
    let d = hash(identifier, 60);
    proof {
        lemma_spec_hash_len("dgc-core"@, 6);
        lemma_spec_hash_len("credit"@, 2);
        lemma_spec_hash_len(currency@, 2);
        lemma_spec_hash_len(identifier@, 60);
    }
    let ab = a.concat(b.as_str());
    let abc = ab.concat(c.as_str());
    abc.concat(d.as_str())
}

pub fn make_sell_state_address(currency: &str, timestamp: &str) -> (r: String)
    ensures
        r@ == sell_address(currency@, timestamp@),
        r@.len() == 70,
{
    let a = hash("dgc-core", 6);
    let b = hash("sell", 2);
    let c = hash(currency, 2);
    let d = hash(timestamp, 60);
    proof {
        lemma_spec_hash_len("dgc-core"@, 6);
        lemma_spec_hash_len("sell"@, 2);
        lemma_spec_hash_len(currency@, 2);
        lemma_spec_hash_len(timestamp@, 60);
    }
    let ab = a.concat(b.as_str());
    let abc = ab.concat(c.as_str());
    abc.concat(d.as_str())
}

pub fn make_buy_state_address(currency: &str, timestamp: &str) -> (r: String)
    ensures
        r@ == buy_address(currency@, timestamp@),
        r@.len() == 70,
{
    let a = hash("dgc-core", 6);
    let b = hash("buy", 2);
    let c = hash(currency, 2);
    let d = hash(timestamp, 60);
    proof {
        lemma_spec_hash_len("dgc-core"@, 6);
        lemma_spec_hash_len("buy"@, 2);
        lemma_spec_hash_len(currency@, 2);
        lemma_spec_hash_len(timestamp@, 60);
    }
    let ab = a.concat(b.as_str());
    let abc = ab.concat(c.as_str());
    abc.concat(d.as_str())
}

/// Key derivation is a pure function of its inputs: identical record
/// kind and identifying strings always yield the identical key.
pub proof fn lemma_address_deterministic(a1: Seq<char>, a2: Seq<char>, b1: Seq<char>, b2: Seq<char>)
    requires
        a1 == a2,
        b1 == b2,
    ensures
        balance_address(a1) == balance_address(a2),
        exchange_address(a1) == exchange_address(a2),
        credit_address(a1, b1) == credit_address(a2, b2),
        sell_address(a1, b1) == sell_address(a2, b2),
        buy_address(a1, b1) == buy_address(a2, b2),
{
}

/// The five two-character kind discriminators are pairwise distinct.
pub open spec fn distinct_kind_codes() -> bool {
    &&& spec_hash("balance"@, 2) != spec_hash("exchange"@, 2)
    &&& spec_hash("balance"@, 2) != spec_hash("credit"@, 2)
    &&& spec_hash("balance"@, 2) != spec_hash("sell"@, 2)
    &&& spec_hash("balance"@, 2) != spec_hash("buy"@, 2)
    &&& spec_hash("exchange"@, 2) != spec_hash("credit"@, 2)
    &&& spec_hash("exchange"@, 2) != spec_hash("sell"@, 2)
    &&& spec_hash("exchange"@, 2) != spec_hash("buy"@, 2)
    &&& spec_hash("credit"@, 2) != spec_hash("sell"@, 2)
    &&& spec_hash("credit"@, 2) != spec_hash("buy"@, 2)
    &&& spec_hash("sell"@, 2) != spec_hash("buy"@, 2)
}

/// Computes the five kind discriminators and reports whether they are
/// pairwise distinct. The discriminators are truncated digests, so their
/// distinctness is a fact of the digest values, established here at
/// runtime rather than assumed.
pub fn kind_codes_distinct() -> (b: bool)
    ensures
        b == distinct_kind_codes(),
{
    let cb = hash("balance", 2);
    let ce = hash("exchange", 2);
    let cc = hash("credit", 2);
    let cs = hash("sell", 2);
    let cu = hash("buy", 2);
    !cb.eq(&ce) && !cb.eq(&cc) && !cb.eq(&cs) && !cb.eq(&cu) && !ce.eq(&cc) && !ce.eq(&cs)
        && !ce.eq(&cu) && !cc.eq(&cs) && !cc.eq(&cu) && !cs.eq(&cu)
}

/// Two keys that share the namespace prefix but carry different
/// two-character kind discriminators differ, whatever follows them.
proof fn lemma_code_segment_separates(c1: Seq<char>, c2: Seq<char>, t1: Seq<char>, t2: Seq<char>)
    requires
        c1.len() == 2,
        c2.len() == 2,
        c1 != c2,
    ensures
        dgc_prefix() + c1 + t1 != dgc_prefix() + c2 + t2,
{
    let p = dgc_prefix();
    lemma_spec_hash_len("dgc-core"@, 6);
    assert(exists|i: int| 0 <= i < 2 && c1[i] != c2[i]) by {
        if forall|i: int| 0 <= i < 2 ==> c1[i] == c2[i] {
            assert(c1 =~= c2);
        }
    }
    let i = choose|i: int| 0 <= i < 2 && c1[i] != c2[i];
    assert((p + c1 + t1)[6 + i] == c1[i]);
    assert((p + c2 + t2)[6 + i] == c2[i]);
}

/// Keys of different record kinds never coincide, even when the
/// identifying strings are equal, provided the kind discriminators are
/// pairwise distinct (`kind_codes_distinct` checks exactly that).
pub proof fn lemma_kinds_never_collide(a: Seq<char>, b: Seq<char>)
    requires
        distinct_kind_codes(),
    ensures
        balance_address(a) != exchange_address(a),
        balance_address(a) != credit_address(a, b),
        balance_address(a) != sell_address(a, b),
        balance_address(a) != buy_address(a, b),
        exchange_address(a) != credit_address(a, b),
        exchange_address(a) != sell_address(a, b),
        exchange_address(a) != buy_address(a, b),
        credit_address(a, b) != sell_address(a, b),
        credit_address(a, b) != buy_address(a, b),
        sell_address(a, b) != buy_address(a, b),
{
    let p = dgc_prefix();
    let cb = spec_hash("balance"@, 2);
    let ce = spec_hash("exchange"@, 2);
    let cc = spec_hash("credit"@, 2);
    let cs = spec_hash("sell"@, 2);
    let cu = spec_hash("buy"@, 2);
    lemma_spec_hash_len("balance"@, 2);
    lemma_spec_hash_len("exchange"@, 2);
    lemma_spec_hash_len("credit"@, 2);
    lemma_spec_hash_len("sell"@, 2);
    lemma_spec_hash_len("buy"@, 2);
    let tb = spec_hash(a, 62);
    let te = spec_hash(a, 62);
    let t2 = spec_hash(b, 2) + spec_hash(a, 60);
    let t3 = spec_hash(a, 2) + spec_hash(b, 60);
    assert(credit_address(a, b) =~= p + cc + t2);
    assert(sell_address(a, b) =~= p + cs + t3);
    assert(buy_address(a, b) =~= p + cu + t3);
    lemma_code_segment_separates(cb, ce, tb, te);
    lemma_code_segment_separates(cb, cc, tb, t2);
    lemma_code_segment_separates(cb, cs, tb, t3);
    lemma_code_segment_separates(cb, cu, tb, t3);
    lemma_code_segment_separates(ce, cc, te, t2);
    lemma_code_segment_separates(ce, cs, te, t3);
    lemma_code_segment_separates(ce, cu, te, t3);
    lemma_code_segment_separates(cc, cs, t2, t3);
    lemma_code_segment_separates(cc, cu, t2, t3);
    lemma_code_segment_separates(cs, cu, t3, t3);
}

} // verus!
