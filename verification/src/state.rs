//! Typed access to ledger records over an in-memory snapshot of the
//! opaque key/value store.
//!
//! The surrounding framework owns the durable store. For one
//! application of one transaction it supplies the records the action
//! may read; `DGCState` keeps them as the base snapshot, logs every
//! write, and answers reads from the log first. After a successful
//! application the caller flushes the logged writes, in order, to the
//! durable store; a failure there is reported as
//! [`StateError::Backend`](crate::errors::StateError) by that caller,
//! never by this snapshot.
//!
//! Record values are ASCII-decimal `u32`s. A read of an absent key is
//! the value zero (records materialize lazily); a present value that
//! does not parse is [`StateError::Corrupt`](crate::errors::StateError).

use vstd::prelude::*;
use vstd::string::*;
use vstd::utf8::*;

use crate::address::balance_address;
use crate::address::buy_address;
use crate::address::credit_address;
use crate::address::exchange_address;
use crate::address::make_balance_state_address;
use crate::address::make_buy_state_address;
use crate::address::make_credit_state_address;
use crate::address::make_exchange_state_address;
use crate::address::make_sell_state_address;
use crate::address::sell_address;
use crate::errors::StateError;
use crate::numeric::dec_chars;
use crate::numeric::parse_u32;
use crate::numeric::u32_to_dec_string;
use crate::text::bytes_to_string;

verus! {

/// The store contents that a sequence of key/value entries describes:
/// later entries win.
pub open spec fn kv_map(entries: Seq<(String, Vec<u8>)>) -> Map<Seq<char>, Seq<u8>>
    decreases entries.len(),
{
    if entries.len() == 0 {
        Map::empty()
    } else {
        kv_map(entries.drop_last()).insert(entries.last().0@, entries.last().1@)
    }
}

pub open spec fn pairs_view(entries: Seq<(String, Vec<u8>)>) -> Seq<(Seq<char>, Seq<u8>)> {
    entries.map_values(|e: (String, Vec<u8>)| (e.0@, e.1@))
}

/// The ASCII-decimal encoding under which a value is persisted.
pub open spec fn enc_bytes(v: u32) -> Seq<u8> {
    encode_utf8(dec_chars(v as nat))
}

/// The `u32` a stored byte string denotes, if it is UTF-8 decimal text.
pub open spec fn spec_value(bytes: Seq<u8>) -> Option<u32> {
    if valid_utf8(bytes) {
        parse_u32(decode_utf8(bytes))
    } else {
        None
    }
}

/// What reading `key` from store contents `m` yields: nothing when the
/// key is absent, its value when present and well-formed, `Corrupt`
/// otherwise.
pub open spec fn spec_get(m: Map<Seq<char>, Seq<u8>>, key: Seq<char>) -> Result<
    Option<u32>,
    StateError,
> {
    if !m.contains_key(key) {
        Ok(None)
    } else {
        match spec_value(m[key]) {
            Some(v) => Ok(Some(v)),
            None => Err(StateError::Corrupt),
        }
    }
}

/// Reading with the lazy-materialization rule: an absent record is zero.
pub open spec fn spec_read0(m: Map<Seq<char>, Seq<u8>>, key: Seq<char>) -> Result<
    u32,
    StateError,
> {
    match spec_get(m, key) {
        Ok(None) => Ok(0u32),
        Ok(Some(v)) => Ok(v),
        Err(e) => Err(e),
    }
}

/// A value written under `enc_bytes` reads back exactly, whatever was
/// stored there before.
pub proof fn lemma_read_back(m: Map<Seq<char>, Seq<u8>>, key: Seq<char>, v: u32)
    ensures
        spec_get(m.insert(key, enc_bytes(v)), key) == Ok::<Option<u32>, StateError>(Some(v)),
        spec_read0(m.insert(key, enc_bytes(v)), key) == Ok::<u32, StateError>(v),
{
    broadcast use vstd::utf8::encode_utf8_valid_utf8, vstd::utf8::encode_utf8_decode_utf8;

    crate::numeric::lemma_parse_dec_chars(v);
}

/// Writing one key leaves what every other key reads unchanged.
pub proof fn lemma_read_frame(m: Map<Seq<char>, Seq<u8>>, key: Seq<char>, v: Seq<u8>, other: Seq<char>)
    requires
        other != key,
    ensures
        spec_get(m.insert(key, v), other) == spec_get(m, other),
        spec_read0(m.insert(key, v), other) == spec_read0(m, other),
{
}

proof fn lemma_kv_map_concat(
    a: Seq<(String, Vec<u8>)>,
    b: Seq<(String, Vec<u8>)>,
    key: Seq<char>,
)
    ensures
        kv_map(a + b).contains_key(key) == (kv_map(a).contains_key(key) || kv_map(
            b,
        ).contains_key(key)),
        kv_map(b).contains_key(key) ==> kv_map(a + b)[key] == kv_map(b)[key],
        !kv_map(b).contains_key(key) && kv_map(a).contains_key(key) ==> kv_map(a + b)[key]
            == kv_map(a)[key],
    decreases b.len(),
{
    if b.len() == 0 {
        assert(a + b =~= a);
    } else {
        assert((a + b).drop_last() =~= a + b.drop_last());
        lemma_kv_map_concat(a, b.drop_last(), key);
    }
}

proof fn lemma_kv_concat_is_apply_pairs(a: Seq<(String, Vec<u8>)>, b: Seq<(String, Vec<u8>)>)
    ensures
        kv_map(a + b) == apply_pairs(kv_map(a), pairs_view(b)),
    decreases b.len(),
{
    if b.len() == 0 {
        assert(a + b =~= a);
        assert(pairs_view(b) =~= Seq::<(Seq<char>, Seq<u8>)>::empty());
    } else {
        lemma_kv_concat_is_apply_pairs(a, b.drop_last());
        assert((a + b).drop_last() =~= a + b.drop_last());
        assert(pairs_view(b).drop_last() =~= pairs_view(b.drop_last()));
        assert(pairs_view(b).last() == (b.last().0@, b.last().1@));
    }
}

/// Looks for `key` among `entries`, later entries first.
fn lookup_idx(entries: &Vec<(String, Vec<u8>)>, key: &String) -> (r: Option<usize>)
    ensures
        match r {
            Some(i) => i < entries@.len() && entries@[i as int].0@ == key@ && kv_map(
                entries@,
            ).contains_key(key@) && kv_map(entries@)[key@] == entries@[i as int].1@,
            None => !kv_map(entries@).contains_key(key@),
        },
{
    let mut i: usize = entries.len();
    proof {
        assert(entries@.take(entries@.len() as int) =~= entries@);
    }
    while i > 0
        invariant
            i <= entries@.len(),
            kv_map(entries@).contains_key(key@) == kv_map(
                entries@.take(i as int),
            ).contains_key(key@),
            kv_map(entries@).contains_key(key@) ==> kv_map(entries@)[key@] == kv_map(
                entries@.take(i as int),
            )[key@],
        decreases i,
    {
        i = i - 1;
        proof {
            let pre = entries@.take(i as int);
            let cur = entries@.take(i + 1);
            assert(cur.drop_last() =~= pre);
            assert(cur.last() == entries@[i as int]);
            assert(kv_map(cur) == kv_map(pre).insert(
                entries@[i as int].0@,
                entries@[i as int].1@,
            ));
        }
        let e = &entries[i];
        if e.0.eq(key) {
            return Some(i);
        }
    }
    proof {
        assert(entries@.take(0) =~= Seq::<(String, Vec<u8>)>::empty());
    }
    None
}

fn result_from_bytes(bytes: &Vec<u8>) -> (r: Result<Option<u32>, StateError>)
    ensures
        r == match spec_value(bytes@) {
            Some(v) => Ok::<Option<u32>, StateError>(Some(v)),
            None => Err::<Option<u32>, StateError>(StateError::Corrupt),
        },
{
    match bytes_to_string(bytes.as_slice()) {
        Some(s) => match crate::numeric::parse_u32_str(s.as_str()) {
            Some(v) => Ok(Some(v)),
            None => Err(StateError::Corrupt),
        },
        None => Err(StateError::Corrupt),
    }
}

/// One transaction's view of the ledger store: the supplied snapshot
/// plus this transaction's own writes, in order.
pub struct DGCState {
    base: Vec<(String, Vec<u8>)>,
    writes: Vec<(String, Vec<u8>)>,
}

impl View for DGCState {
    type V = Map<Seq<char>, Seq<u8>>;

    closed spec fn view(&self) -> Map<Seq<char>, Seq<u8>> {
        kv_map(self.base@ + self.writes@)
    }
}

/// `m` after the given writes are applied in order.
pub open spec fn apply_pairs(
    m: Map<Seq<char>, Seq<u8>>,
    ws: Seq<(Seq<char>, Seq<u8>)>,
) -> Map<Seq<char>, Seq<u8>>
    decreases ws.len(),
{
    if ws.len() == 0 {
        m
    } else {
        apply_pairs(m, ws.drop_last()).insert(ws.last().0, ws.last().1)
    }
}

impl DGCState {
    /// The writes logged so far, in the order they were issued.
    pub closed spec fn writes_view(&self) -> Seq<(Seq<char>, Seq<u8>)> {
        pairs_view(self.writes@)
    }

    /// The snapshot as supplied, before this transaction's writes.
    pub closed spec fn base_view(&self) -> Map<Seq<char>, Seq<u8>> {
        kv_map(self.base@)
    }

    /// The snapshot's contents are exactly the supplied records overlaid
    /// with the logged writes, in order: flushing the log to a store
    /// that held the supplied records yields this view.
    pub proof fn lemma_view_is_base_plus_writes(&self)
        ensures
            self@ == apply_pairs(self.base_view(), self.writes_view()),
    {
        lemma_kv_concat_is_apply_pairs(self.base@, self.writes@);
    }

    /// Takes the supplied records as this transaction's snapshot.
    pub fn new(entries: Vec<(String, Vec<u8>)>) -> (r: DGCState)
        ensures
            r@ == kv_map(entries@),
            r.writes_view() == Seq::<(Seq<char>, Seq<u8>)>::empty(),
    {
        let r = DGCState { base: entries, writes: Vec::new() };
        proof {
            assert(r.base@ + r.writes@ =~= r.base@);
            assert(r.writes_view() =~= Seq::<(Seq<char>, Seq<u8>)>::empty());
        }
        r
    }

    /// Hands the logged writes to the caller, for flushing to the
    /// durable store in order.
    pub fn into_writes(self) -> (r: Vec<(String, Vec<u8>)>)
        ensures
            pairs_view(r@) == self.writes_view(),
    {
        self.writes
    }

    fn get_value(&self, address: &String) -> (r: Result<Option<u32>, StateError>)
        ensures
            r == spec_get(self@, address@),
    {
        proof {
            lemma_kv_map_concat(self.base@, self.writes@, address@);
        }
        match lookup_idx(&self.writes, address) {
            Some(i) => {
                let e = &self.writes[i];
                result_from_bytes(&e.1)
            },
            None => match lookup_idx(&self.base, address) {
                Some(i) => {
                    let e = &self.base[i];
                    result_from_bytes(&e.1)
                },
                None => Ok(None),
            },
        }
    }

    fn set_value(&mut self, address: String, value: u32)
        ensures
            final(self)@ == old(self)@.insert(address@, enc_bytes(value)),
            final(self).writes_view() == old(self).writes_view().push((address@, enc_bytes(value))),
            final(self).base_view() == old(self).base_view(),
    {
        let s = u32_to_dec_string(value);
        let bytes = s.as_str().as_bytes_vec();
        let ghost oldw = self.writes@;
        let ghost a = address@;
        let ghost b = bytes@;
        self.writes.push((address, bytes));
        proof {
            let whole = self.base@ + self.writes@;
            assert(whole.drop_last() =~= self.base@ + oldw);
            assert(whole.last() == (self.writes@.last()));
            assert(kv_map(whole) == kv_map(self.base@ + oldw).insert(a, b));
            assert(self.writes_view() =~= pairs_view(oldw).push((a, b)));
        }
    }

    /// The balance record of `identifier`, if present and well-formed.
    pub fn get_balance(&self, identifier: &str) -> (r: Result<Option<u32>, StateError>)
        ensures
            r == spec_get(self@, balance_address(identifier@)),
    {
        let address = make_balance_state_address(identifier);
        self.get_value(&address)
    }

    /// Writes the balance record of `identifier`.
    pub fn set_balance(&mut self, identifier: &str, value: u32)
        ensures
            final(self)@ == old(self)@.insert(balance_address(identifier@), enc_bytes(value)),
            final(self).writes_view() == old(self).writes_view().push(
                (balance_address(identifier@), enc_bytes(value)),
            ),
            final(self).base_view() == old(self).base_view(),
    {
        let address = make_balance_state_address(identifier);
        self.set_value(address, value);
    }

    /// The exchange-rate record of `currency`.
    pub fn get_exchange(&self, currency: &str) -> (r: Result<Option<u32>, StateError>)
        ensures
            r == spec_get(self@, exchange_address(currency@)),
    {
        let address = make_exchange_state_address(currency);
        self.get_value(&address)
    }

    /// Writes the exchange-rate record of `currency`.
    pub fn set_exchange(&mut self, currency: &str, value: u32)
        ensures
            final(self)@ == old(self)@.insert(exchange_address(currency@), enc_bytes(value)),
            final(self).writes_view() == old(self).writes_view().push(
                (exchange_address(currency@), enc_bytes(value)),
            ),
            final(self).base_view() == old(self).base_view(),
    {
        let address = make_exchange_state_address(currency);
        self.set_value(address, value);
    }

    /// The credit record of `identifier` in `currency`.
    pub fn get_credit(&self, identifier: &str, currency: &str) -> (r: Result<
        Option<u32>,
        StateError,
    >)
        ensures
            r == spec_get(self@, credit_address(identifier@, currency@)),
    {
        let address = make_credit_state_address(identifier, currency);
        self.get_value(&address)
    }

    /// Writes the credit record of `identifier` in `currency`.
    pub fn set_credit(&mut self, identifier: &str, currency: &str, value: u32)
        ensures
            final(self)@ == old(self)@.insert(
                credit_address(identifier@, currency@),
                enc_bytes(value),
            ),
            final(self).writes_view() == old(self).writes_view().push(
                (credit_address(identifier@, currency@), enc_bytes(value)),
            ),
            final(self).base_view() == old(self).base_view(),
    {
        let address = make_credit_state_address(identifier, currency);
        self.set_value(address, value);
    }

    /// The sell record of `currency` at `timestamp`.
    pub fn get_sell(&self, currency: &str, timestamp: &str) -> (r: Result<Option<u32>, StateError>)
        ensures
            r == spec_get(self@, sell_address(currency@, timestamp@)),
    {
        let address = make_sell_state_address(currency, timestamp);
        self.get_value(&address)
    }

    /// Writes the sell record of `currency` at `timestamp`.
    pub fn set_sell(&mut self, currency: &str, timestamp: &str, value: u32)
        ensures
            final(self)@ == old(self)@.insert(
                sell_address(currency@, timestamp@),
                enc_bytes(value),
            ),
            final(self).writes_view() == old(self).writes_view().push(
                (sell_address(currency@, timestamp@), enc_bytes(value)),
            ),
            final(self).base_view() == old(self).base_view(),
    {
        let address = make_sell_state_address(currency, timestamp);
        self.set_value(address, value);
    }

    /// The buy record of `currency` at `timestamp`.
    pub fn get_buy(&self, currency: &str, timestamp: &str) -> (r: Result<Option<u32>, StateError>)
        ensures
            r == spec_get(self@, buy_address(currency@, timestamp@)),
    {
        let address = make_buy_state_address(currency, timestamp);
        self.get_value(&address)
    }

    /// Writes the buy record of `currency` at `timestamp`.
    pub fn set_buy(&mut self, currency: &str, timestamp: &str, value: u32)
        ensures
            final(self)@ == old(self)@.insert(buy_address(currency@, timestamp@), enc_bytes(value)),
            final(self).writes_view() == old(self).writes_view().push(
                (buy_address(currency@, timestamp@), enc_bytes(value)),
            ),
            final(self).base_view() == old(self).base_view(),
    {
        let address = make_buy_state_address(currency, timestamp);
        self.set_value(address, value);
    }
}

} // verus!
