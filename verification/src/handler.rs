//! The transaction handler: validation and update rules for every
//! action of the dgc ledger family.
//!
//! Each action reads the balances, credits and rates it needs (an
//! absent record is zero), validates its preconditions, and only then
//! writes; a rejected action leaves the snapshot untouched. Settlement
//! of `SellDGCoin` and `BuyDGCoin` awaits a product-level definition of
//! the two-sided conversion, so both validate their preconditions and
//! deliberately write nothing.

use vstd::prelude::*;
use vstd::string::*;

use crate::address::balance_address;
use crate::address::credit_address;
use crate::address::dgc_prefix;
use crate::address::exchange_address;
use crate::address::get_dgc_prefix;
use crate::errors::ApplyError;
use crate::errors::StateError;
use crate::errors::ValidationError;
use crate::payload::decode_payload;
use crate::payload::Action;
use crate::payload::DGCPayload;
use crate::payload::PayloadView;
use crate::state::enc_bytes;
use crate::state::spec_read0;
use crate::state::DGCState;
use crate::text::views_of;

verus! {

/// The store contents a map describes.
pub type StoreView = Map<Seq<char>, Seq<u8>>;

/// What `Deposit` does: the signer's balance grows by the amount.
pub open spec fn spec_deposit(m: StoreView, signer: Seq<char>, amount: u32) -> Result<
    StoreView,
    ApplyError,
> {
    match spec_read0(m, balance_address(signer)) {
        Err(e) => Err(ApplyError::State(e)),
        Ok(b) => Ok(m.insert(balance_address(signer), enc_bytes((b + amount) as u32))),
    }
}

/// What `Withdraw` does: the signer's balance shrinks by the amount,
/// which must not exceed it.
pub open spec fn spec_withdraw(m: StoreView, signer: Seq<char>, amount: u32) -> Result<
    StoreView,
    ApplyError,
> {
    match spec_read0(m, balance_address(signer)) {
        Err(e) => Err(ApplyError::State(e)),
        Ok(b) => if amount > b {
            Err(ApplyError::Validation(ValidationError::InsufficientBalance))
        } else {
            Ok(m.insert(balance_address(signer), enc_bytes((b - amount) as u32)))
        },
    }
}

/// What `Transfer` does: the amount, at most the signer's balance,
/// moves from the signer to the beneficiary. Both balances are read
/// before either is written.
pub open spec fn spec_transfer(
    m: StoreView,
    signer: Seq<char>,
    beneficiary: Seq<char>,
    amount: u32,
) -> Result<StoreView, ApplyError> {
    match spec_read0(m, balance_address(signer)) {
        Err(e) => Err(ApplyError::State(e)),
        Ok(cb) => match spec_read0(m, balance_address(beneficiary)) {
            Err(e) => Err(ApplyError::State(e)),
            Ok(bb) => if amount > cb {
                Err(ApplyError::Validation(ValidationError::InsufficientBalance))
            } else {
                Ok(
                    m.insert(balance_address(signer), enc_bytes((cb - amount) as u32)).insert(
                        balance_address(beneficiary),
                        enc_bytes((bb + amount) as u32),
                    ),
                )
            },
        },
    }
}

/// What `ApplyCredit` does: the signer's credit line in the currency
/// grows by the amount.
pub open spec fn spec_apply_credit(
    m: StoreView,
    signer: Seq<char>,
    currency: Seq<char>,
    amount: u32,
) -> Result<StoreView, ApplyError> {
    match spec_read0(m, credit_address(signer, currency)) {
        Err(e) => Err(ApplyError::State(e)),
        Ok(c) => Ok(m.insert(credit_address(signer, currency), enc_bytes((c + amount) as u32))),
    }
}

/// What `SellDGCoin` does: the amount must not exceed the signer's
/// balance plus DGC credit, and the currency's rate must be readable.
/// Settlement is deferred (see the module note): nothing is written.
pub open spec fn spec_sell(
    m: StoreView,
    signer: Seq<char>,
    currency: Seq<char>,
    amount: u32,
) -> Result<StoreView, ApplyError> {
    match spec_read0(m, balance_address(signer)) {
        Err(e) => Err(ApplyError::State(e)),
        Ok(b) => match spec_read0(m, credit_address(signer, "DGC"@)) {
            Err(e) => Err(ApplyError::State(e)),
            Ok(c) => match spec_read0(m, exchange_address(currency)) {
                Err(e) => Err(ApplyError::State(e)),
                Ok(_rate) => if amount > b + c {
                    Err(ApplyError::Validation(ValidationError::InsufficientBalance))
                } else {
                    Ok(m)
                },
            },
        },
    }
}

/// What `BuyDGCoin` does: the amount at the currency's rate must not
/// exceed the signer's credit in that currency. Settlement is deferred
/// (see the module note): nothing is written.
pub open spec fn spec_buy(
    m: StoreView,
    signer: Seq<char>,
    currency: Seq<char>,
    amount: u32,
) -> Result<StoreView, ApplyError> {
    match spec_read0(m, balance_address(signer)) {
        Err(e) => Err(ApplyError::State(e)),
        Ok(_b) => match spec_read0(m, credit_address(signer, currency)) {
            Err(e) => Err(ApplyError::State(e)),
            Ok(c) => match spec_read0(m, exchange_address(currency)) {
                Err(e) => Err(ApplyError::State(e)),
                Ok(rate) => if amount * rate > c {
                    Err(ApplyError::Validation(ValidationError::InsufficientCredit))
                } else {
                    Ok(m)
                },
            },
        },
    }
}

/// A read-only action: the store is returned unchanged, unless the
/// record read is corrupt.
pub open spec fn spec_query(m: StoreView, key: Seq<char>) -> Result<StoreView, ApplyError> {
    match spec_read0(m, key) {
        Err(e) => Err(ApplyError::State(e)),
        Ok(_) => Ok(m),
    }
}

/// What one decoded action does to the store, or exactly why it fails.
pub open spec fn spec_execute(m: StoreView, signer: Seq<char>, p: PayloadView) -> Result<
    StoreView,
    ApplyError,
> {
    match p.action {
        Action::Deposit => spec_deposit(m, signer, p.value),
        Action::Withdraw => spec_withdraw(m, signer, p.value),
        Action::Balance => spec_query(m, balance_address(signer)),
        Action::BalanceDGC => spec_query(m, balance_address(signer)),
        Action::Transfer => match p.beneficiary {
            None => Err(ApplyError::Validation(ValidationError::MissingArgument)),
            Some(b) => spec_transfer(m, signer, b, p.value),
        },
        Action::TransferDGCoin => match p.beneficiary {
            None => Err(ApplyError::Validation(ValidationError::MissingArgument)),
            Some(b) => spec_transfer(m, signer, b, p.value),
        },
        Action::ExchangeDGC => match p.beneficiary {
            None => Err(ApplyError::Validation(ValidationError::MissingArgument)),
            Some(cur) => spec_query(m, exchange_address(cur)),
        },
        Action::CreditDGC => match p.beneficiary {
            None => Err(ApplyError::Validation(ValidationError::MissingArgument)),
            Some(cur) => spec_query(m, credit_address(signer, cur)),
        },
        Action::ApplyCredit => match p.beneficiary {
            None => Err(ApplyError::Validation(ValidationError::MissingArgument)),
            Some(cur) => spec_apply_credit(m, signer, cur, p.value),
        },
        Action::SellDGCoin => match p.beneficiary {
            None => Err(ApplyError::Validation(ValidationError::MissingArgument)),
            Some(cur) => spec_sell(m, signer, cur, p.value),
        },
        Action::BuyDGCoin => match p.beneficiary {
            None => Err(ApplyError::Validation(ValidationError::MissingArgument)),
            Some(cur) => spec_buy(m, signer, cur, p.value),
        },
    }
}

/// The machine-limit preconditions of one decoded action: every sum or
/// product its update rule computes fits in a `u32`, the store's
/// 32-bit value range. On other inputs no update is defined.
pub open spec fn payload_requires(m: StoreView, signer: Seq<char>, p: PayloadView) -> bool {
    match p.action {
        Action::Deposit => match spec_read0(m, balance_address(signer)) {
            Ok(b) => b + p.value <= u32::MAX,
            Err(_) => true,
        },
        Action::Transfer | Action::TransferDGCoin => match p.beneficiary {
            None => true,
            Some(ben) => match (
                spec_read0(m, balance_address(signer)),
                spec_read0(m, balance_address(ben)),
            ) {
                (Ok(cb), Ok(bb)) => p.value <= cb ==> bb + p.value <= u32::MAX,
                _ => true,
            },
        },
        Action::ApplyCredit => match p.beneficiary {
            None => true,
            Some(cur) => match spec_read0(m, credit_address(signer, cur)) {
                Ok(c) => c + p.value <= u32::MAX,
                Err(_) => true,
            },
        },
        Action::SellDGCoin => match p.beneficiary {
            None => true,
            Some(_cur) => match (
                spec_read0(m, balance_address(signer)),
                spec_read0(m, credit_address(signer, "DGC"@)),
            ) {
                (Ok(b), Ok(c)) => b + c <= u32::MAX,
                _ => true,
            },
        },
        Action::BuyDGCoin => match p.beneficiary {
            None => true,
            Some(cur) => match (
                spec_read0(m, balance_address(signer)),
                spec_read0(m, credit_address(signer, cur)),
                spec_read0(m, exchange_address(cur)),
            ) {
                (Ok(_b), Ok(_c), Ok(rate)) => p.value * rate <= u32::MAX,
                _ => true,
            },
        },
        _ => true,
    }
}

/// For a positive rate, fitting under the divided bound is the same as
/// the product fitting under the bound.
proof fn lemma_mul_div_bound(v: int, r: int, max: int)
    requires
        r >= 1,
        v >= 0,
        max >= 0,
    ensures
        (v <= max / r) <==> (v * r <= max),
{
    if v <= max / r {
        vstd::arithmetic::mul::lemma_mul_inequality(v, max / r, r);
        vstd::arithmetic::div_mod::lemma_fundamental_div_mod(max, r);
        vstd::arithmetic::div_mod::lemma_mod_bound(max, r);
        vstd::arithmetic::mul::lemma_mul_is_commutative(max / r, r);
    }
    if v * r <= max {
        vstd::arithmetic::div_mod::lemma_div_is_ordered(v * r, max, r);
        vstd::arithmetic::div_mod::lemma_div_by_multiple(v, r);
    }
}

/// The registration identity of this handler family.
pub ghost struct HandlerView {
    pub family_name: Seq<char>,
    pub family_versions: Seq<Seq<char>>,
    pub namespaces: Seq<Seq<char>>,
}

/// The dgc ledger transaction handler: its registration identity and
/// the update rules of its actions.
pub struct DGCTransactionHandler {
    family_name: String,
    family_versions: Vec<String>,
    namespaces: Vec<String>,
}

impl View for DGCTransactionHandler {
    type V = HandlerView;

    closed spec fn view(&self) -> HandlerView {
        HandlerView {
            family_name: self.family_name@,
            family_versions: views_of(self.family_versions@),
            namespaces: views_of(self.namespaces@),
        }
    }
}

impl DGCTransactionHandler {
    pub fn new() -> (r: DGCTransactionHandler)
        ensures
            r@.family_name == "dgc-core"@,
            r@.family_versions == seq!["1.0"@],
            r@.namespaces == seq![dgc_prefix()],
    {
        let r = DGCTransactionHandler {
            family_name: String::from_str("dgc-core"),
            family_versions: vec![String::from_str("1.0")],
            namespaces: vec![get_dgc_prefix()],
        };
        proof {
            assert(r@.family_versions =~= seq!["1.0"@]);
            assert(r@.namespaces =~= seq![dgc_prefix()]);
        }
        r
    }

    pub fn family_name(&self) -> (r: String)
        ensures
            r@ == self@.family_name,
    {
        self.family_name.clone()
    }

    pub fn family_versions(&self) -> (r: Vec<String>)
        ensures
            views_of(r@) == self@.family_versions,
    {
        let r = self.family_versions.clone();
        proof {
            assert(r@.len() == self.family_versions@.len());
            assert(views_of(r@) =~= views_of(self.family_versions@));
        }
        r
    }

    pub fn namespaces(&self) -> (r: Vec<String>)
        ensures
            views_of(r@) == self@.namespaces,
    {
        let r = self.namespaces.clone();
        proof {
            assert(r@.len() == self.namespaces@.len());
            assert(views_of(r@) =~= views_of(self.namespaces@));
        }
        r
    }

    /// The signer's balance; an absent record is zero.
    pub fn balance(&self, state: &mut DGCState, customer_pubkey: &str) -> (r: Result<
        u32,
        ApplyError,
    >)
        ensures
            *final(state) == *old(state),
            r == match spec_read0(old(state)@, balance_address(customer_pubkey@)) {
                Ok(b) => Ok::<u32, ApplyError>(b),
                Err(e) => Err::<u32, ApplyError>(ApplyError::State(e)),
            },
    {
        let current_balance: u32 = match state.get_balance(customer_pubkey) {
            Ok(Some(v)) => v,
            Ok(None) => 0,
            Err(err) => {
                return Err(ApplyError::State(err));
            },
        };
        Ok(current_balance)
    }

    /// The signer's DGC-denominated balance; an absent record is zero.
    pub fn dgc_balance(&self, state: &mut DGCState, customer_pubkey: &str) -> (r: Result<
        u32,
        ApplyError,
    >)
        ensures
            *final(state) == *old(state),
            r == match spec_read0(old(state)@, balance_address(customer_pubkey@)) {
                Ok(b) => Ok::<u32, ApplyError>(b),
                Err(e) => Err::<u32, ApplyError>(ApplyError::State(e)),
            },
    {
        let current_balance: u32 = match state.get_balance(customer_pubkey) {
            Ok(Some(v)) => v,
            Ok(None) => 0,
            Err(err) => {
                return Err(ApplyError::State(err));
            },
        };
        Ok(current_balance)
    }

    /// The exchange rate of `currency`; zero when not yet set.
    pub fn dgc_exchange(&self, state: &mut DGCState, currency: &str) -> (r: Result<
        u32,
        ApplyError,
    >)
        ensures
            *final(state) == *old(state),
            r == match spec_read0(old(state)@, exchange_address(currency@)) {
                Ok(b) => Ok::<u32, ApplyError>(b),
                Err(e) => Err::<u32, ApplyError>(ApplyError::State(e)),
            },
    {
        let current_exchange: u32 = match state.get_exchange(currency) {
            Ok(Some(v)) => v,
            Ok(None) => 0,
            Err(err) => {
                return Err(ApplyError::State(err));
            },
        };
        Ok(current_exchange)
    }

    /// The signer's credit line in `currency`; an absent record is zero.
    pub fn dgc_credit(&self, state: &mut DGCState, customer_pubkey: &str, currency: &str) -> (r:
        Result<u32, ApplyError>)
        ensures
            *final(state) == *old(state),
            r == match spec_read0(old(state)@, credit_address(customer_pubkey@, currency@)) {
                Ok(b) => Ok::<u32, ApplyError>(b),
                Err(e) => Err::<u32, ApplyError>(ApplyError::State(e)),
            },
    {
        let current_credit: u32 = match state.get_credit(customer_pubkey, currency) {
            Ok(Some(v)) => v,
            Ok(None) => 0,
            Err(err) => {
                return Err(ApplyError::State(err));
            },
        };
        Ok(current_credit)
    }

    pub fn deposit(&self, state: &mut DGCState, customer_pubkey: &str, deposit_amount: u32) -> (r:
        Result<(), ApplyError>)
        requires
            spec_read0(old(state)@, balance_address(customer_pubkey@)) matches Ok(b) ==> b
                + deposit_amount <= u32::MAX,
        ensures
            match spec_deposit(old(state)@, customer_pubkey@, deposit_amount) {
                Ok(m2) => r is Ok && final(state)@ == m2 && final(state).base_view() == old(
                    state,
                ).base_view(),
                Err(e) => r == Err::<(), ApplyError>(e) && *final(state) == *old(state),
            },
    {
        let current_balance: u32 = match self.balance(state, customer_pubkey) {
            Ok(v) => v,
            Err(err) => {
                return Err(err);
            },
        };
        let new_balance = current_balance + deposit_amount;
        state.set_balance(customer_pubkey, new_balance);
        Ok(())
    }

    pub fn withdraw(&self, state: &mut DGCState, customer_pubkey: &str, withdraw_amount: u32) -> (r:
        Result<(), ApplyError>)
        ensures
            match spec_withdraw(old(state)@, customer_pubkey@, withdraw_amount) {
                Ok(m2) => r is Ok && final(state)@ == m2 && final(state).base_view() == old(
                    state,
                ).base_view(),
                Err(e) => r == Err::<(), ApplyError>(e) && *final(state) == *old(state),
            },
    {
        let current_balance: u32 = match self.balance(state, customer_pubkey) {
            Ok(v) => v,
            Err(err) => {
                return Err(err);
            },
        };
        if withdraw_amount > current_balance {
            return Err(ApplyError::Validation(ValidationError::InsufficientBalance));
        }
        let new_balance = current_balance - withdraw_amount;
        state.set_balance(customer_pubkey, new_balance);
        Ok(())
    }

    pub fn transfer(
        &self,
        state: &mut DGCState,
        customer_pubkey: &str,
        beneficiary_pubkey: &str,
        transfer_amount: u32,
    ) -> (r: Result<(), ApplyError>)
        requires
            match (
                spec_read0(old(state)@, balance_address(customer_pubkey@)),
                spec_read0(old(state)@, balance_address(beneficiary_pubkey@)),
            ) {
                (Ok(c), Ok(b)) => transfer_amount <= c ==> b + transfer_amount <= u32::MAX,
                _ => true,
            },
        ensures
            match spec_transfer(
                old(state)@,
                customer_pubkey@,
                beneficiary_pubkey@,
                transfer_amount,
            ) {
                Ok(m2) => r is Ok && final(state)@ == m2 && final(state).base_view() == old(
                    state,
                ).base_view(),
                Err(e) => r == Err::<(), ApplyError>(e) && *final(state) == *old(state),
            },
    {
        let current_balance: u32 = match self.balance(state, customer_pubkey) {
            Ok(v) => v,
            Err(err) => {
                return Err(err);
            },
        };
        let beneficiary_balance: u32 = match self.balance(state, beneficiary_pubkey) {
            Ok(v) => v,
            Err(err) => {
                return Err(err);
            },
        };
        if transfer_amount > current_balance {
            return Err(ApplyError::Validation(ValidationError::InsufficientBalance));
        }
        state.set_balance(customer_pubkey, current_balance - transfer_amount);
        state.set_balance(beneficiary_pubkey, beneficiary_balance + transfer_amount);
        Ok(())
    }

    /// Transfers in the DGC coin space: the same balance records and
    /// rules as `transfer`.
    pub fn transfer_dg_coin(
        &self,
        state: &mut DGCState,
        customer_pubkey: &str,
        beneficiary_pubkey: &str,
        transfer_amount: u32,
    ) -> (r: Result<(), ApplyError>)
        requires
            match (
                spec_read0(old(state)@, balance_address(customer_pubkey@)),
                spec_read0(old(state)@, balance_address(beneficiary_pubkey@)),
            ) {
                (Ok(c), Ok(b)) => transfer_amount <= c ==> b + transfer_amount <= u32::MAX,
                _ => true,
            },
        ensures
            match spec_transfer(
                old(state)@,
                customer_pubkey@,
                beneficiary_pubkey@,
                transfer_amount,
            ) {
                Ok(m2) => r is Ok && final(state)@ == m2 && final(state).base_view() == old(
                    state,
                ).base_view(),
                Err(e) => r == Err::<(), ApplyError>(e) && *final(state) == *old(state),
            },
    {
        self.transfer(state, customer_pubkey, beneficiary_pubkey, transfer_amount)
    }

    pub fn apply_credit(
        &self,
        state: &mut DGCState,
        customer_pubkey: &str,
        currency: &str,
        credit_amount: u32,
    ) -> (r: Result<(), ApplyError>)
        requires
            spec_read0(old(state)@, credit_address(customer_pubkey@, currency@)) matches Ok(c) ==> c
                + credit_amount <= u32::MAX,
        ensures
            match spec_apply_credit(old(state)@, customer_pubkey@, currency@, credit_amount) {
                Ok(m2) => r is Ok && final(state)@ == m2 && final(state).base_view() == old(
                    state,
                ).base_view(),
                Err(e) => r == Err::<(), ApplyError>(e) && *final(state) == *old(state),
            },
    {
        let customer_credit: u32 = match self.dgc_credit(state, customer_pubkey, currency) {
            Ok(v) => v,
            Err(err) => {
                return Err(err);
            },
        };
        let new_customer_credit = customer_credit + credit_amount;
        state.set_credit(customer_pubkey, currency, new_customer_credit);
        Ok(())
    }

    /// Validates a sale of DGC for `currency`; settlement is deferred
    /// (see the module note), so nothing is written.
    pub fn sell_dg_coin(
        &self,
        state: &mut DGCState,
        customer_pubkey: &str,
        sell_dgc_amount: u32,
        currency: &str,
    ) -> (r: Result<(), ApplyError>)
        requires
            match (
                spec_read0(old(state)@, balance_address(customer_pubkey@)),
                spec_read0(old(state)@, credit_address(customer_pubkey@, "DGC"@)),
            ) {
                (Ok(b), Ok(c)) => b + c <= u32::MAX,
                _ => true,
            },
        ensures
            *final(state) == *old(state),
            match spec_sell(old(state)@, customer_pubkey@, currency@, sell_dgc_amount) {
                Ok(m2) => r is Ok && old(state)@ == m2,
                Err(e) => r == Err::<(), ApplyError>(e),
            },
    {
        let current_dgc_balance: u32 = match self.dgc_balance(state, customer_pubkey) {
            Ok(v) => v,
            Err(err) => {
                return Err(err);
            },
        };
        let current_dgc_credit: u32 = match self.dgc_credit(state, customer_pubkey, "DGC") {
            Ok(v) => v,
            Err(err) => {
                return Err(err);
            },
        };
        let _current_exchange: u32 = match self.dgc_exchange(state, currency) {
            Ok(v) => v,
            Err(err) => {
                return Err(err);
            },
        };
        if sell_dgc_amount > current_dgc_balance + current_dgc_credit {
            return Err(ApplyError::Validation(ValidationError::InsufficientBalance));
        }
        Ok(())
    }

    /// Validates a purchase of DGC with `currency`; settlement is
    /// deferred (see the module note), so nothing is written.
    pub fn buy_dg_coin(
        &self,
        state: &mut DGCState,
        customer_pubkey: &str,
        buy_dgc_amount: u32,
        currency: &str,
    ) -> (r: Result<(), ApplyError>)
        requires
            match (
                spec_read0(old(state)@, balance_address(customer_pubkey@)),
                spec_read0(old(state)@, credit_address(customer_pubkey@, currency@)),
                spec_read0(old(state)@, exchange_address(currency@)),
            ) {
                (Ok(b), Ok(c), Ok(x)) => buy_dgc_amount * x <= u32::MAX,
                _ => true,
            },
        ensures
            *final(state) == *old(state),
            match spec_buy(old(state)@, customer_pubkey@, currency@, buy_dgc_amount) {
                Ok(m2) => r is Ok && old(state)@ == m2,
                Err(e) => r == Err::<(), ApplyError>(e),
            },
    {
        let _current_balance: u32 = match self.dgc_balance(state, customer_pubkey) {
            Ok(v) => v,
            Err(err) => {
                return Err(err);
            },
        };
        let currency_credit: u32 = match self.dgc_credit(state, customer_pubkey, currency) {
            Ok(v) => v,
            Err(err) => {
                return Err(err);
            },
        };
        let current_exchange: u32 = match self.dgc_exchange(state, currency) {
            Ok(v) => v,
            Err(err) => {
                return Err(err);
            },
        };
        if buy_dgc_amount * current_exchange > currency_credit {
            return Err(ApplyError::Validation(ValidationError::InsufficientCredit));
        }
        Ok(())
    }

    /// Dispatches one decoded action, demanding the third payload field
    /// where the action uses it.
    pub fn apply_action(&self, state: &mut DGCState, signer: &str, payload: &DGCPayload) -> (r:
        Result<(), ApplyError>)
        requires
            payload_requires(old(state)@, signer@, payload@),
        ensures
            match spec_execute(old(state)@, signer@, payload@) {
                Ok(m2) => r is Ok && final(state)@ == m2 && final(state).base_view() == old(
                    state,
                ).base_view(),
                Err(e) => r == Err::<(), ApplyError>(e) && *final(state) == *old(state),
            },
    {
        let value = payload.get_value();
        match payload.get_action() {
            Action::Deposit => self.deposit(state, signer, value),
            Action::Withdraw => self.withdraw(state, signer, value),
            Action::Balance => match self.balance(state, signer) {
                Ok(_) => Ok(()),
                Err(e) => Err(e),
            },
            Action::BalanceDGC => match self.dgc_balance(state, signer) {
                Ok(_) => Ok(()),
                Err(e) => Err(e),
            },
            Action::Transfer => match payload.get_beneficiary() {
                Some(b) => self.transfer(state, signer, b.as_str(), value),
                None => Err(ApplyError::Validation(ValidationError::MissingArgument)),
            },
            Action::TransferDGCoin => match payload.get_beneficiary() {
                Some(b) => self.transfer_dg_coin(state, signer, b.as_str(), value),
                None => Err(ApplyError::Validation(ValidationError::MissingArgument)),
            },
            Action::ExchangeDGC => match payload.get_currency() {
                Some(cur) => match self.dgc_exchange(state, cur.as_str()) {
                    Ok(_) => Ok(()),
                    Err(e) => Err(e),
                },
                None => Err(ApplyError::Validation(ValidationError::MissingArgument)),
            },
            Action::CreditDGC => match payload.get_currency() {
                Some(cur) => match self.dgc_credit(state, signer, cur.as_str()) {
                    Ok(_) => Ok(()),
                    Err(e) => Err(e),
                },
                None => Err(ApplyError::Validation(ValidationError::MissingArgument)),
            },
            Action::ApplyCredit => match payload.get_currency() {
                Some(cur) => self.apply_credit(state, signer, cur.as_str(), value),
                None => Err(ApplyError::Validation(ValidationError::MissingArgument)),
            },
            Action::SellDGCoin => match payload.get_currency() {
                Some(cur) => self.sell_dg_coin(state, signer, value, cur.as_str()),
                None => Err(ApplyError::Validation(ValidationError::MissingArgument)),
            },
            Action::BuyDGCoin => match payload.get_currency() {
                Some(cur) => self.buy_dg_coin(state, signer, value, cur.as_str()),
                None => Err(ApplyError::Validation(ValidationError::MissingArgument)),
            },
        }
    }

    /// Whether the action's arithmetic fits in the store's 32-bit
    /// values, read off the snapshot.
    pub fn can_apply(&self, state: &DGCState, signer: &str, payload: &DGCPayload) -> (r: bool)
        ensures
            r == payload_requires(state@, signer@, payload@),
    {
        let value = payload.get_value();
        match payload.get_action() {
            Action::Deposit => match state.get_balance(signer) {
                Ok(Some(b)) => b <= u32::MAX - value,
                Ok(None) => true,
                Err(_) => true,
            },
            Action::Transfer | Action::TransferDGCoin => match payload.get_beneficiary() {
                None => true,
                Some(ben) => match state.get_balance(signer) {
                    Ok(cb) => match state.get_balance(ben.as_str()) {
                        Ok(bb) => {
                            let c = match cb {
                                Some(v) => v,
                                None => 0,
                            };
                            let b = match bb {
                                Some(v) => v,
                                None => 0,
                            };
                            !(value <= c) || b <= u32::MAX - value
                        },
                        Err(_) => true,
                    },
                    Err(_) => true,
                },
            },
            Action::ApplyCredit => match payload.get_currency() {
                None => true,
                Some(cur) => match state.get_credit(signer, cur.as_str()) {
                    Ok(Some(c)) => c <= u32::MAX - value,
                    Ok(None) => true,
                    Err(_) => true,
                },
            },
            Action::SellDGCoin => match payload.get_currency() {
                None => true,
                Some(_cur) => match state.get_balance(signer) {
                    Ok(b) => match state.get_credit(signer, "DGC") {
                        Ok(c) => {
                            let bv = match b {
                                Some(v) => v,
                                None => 0,
                            };
                            let cv = match c {
                                Some(v) => v,
                                None => 0,
                            };
                            bv <= u32::MAX - cv
                        },
                        Err(_) => true,
                    },
                    Err(_) => true,
                },
            },
            Action::BuyDGCoin => match payload.get_currency() {
                None => true,
                Some(cur) => match state.get_balance(signer) {
                    Ok(_) => match state.get_credit(signer, cur.as_str()) {
                        Ok(_) => match state.get_exchange(cur.as_str()) {
                            Ok(x) => {
                                let rate = match x {
                                    Some(v) => v,
                                    None => 0,
                                };
                                proof {
                                    if rate > 0 {
                                        lemma_mul_div_bound(
                                            value as int,
                                            rate as int,
                                            u32::MAX as int,
                                        );
                                    }
                                }
                                rate == 0 || value <= u32::MAX / rate
                            },
                            Err(_) => true,
                        },
                        Err(_) => true,
                    },
                    Err(_) => true,
                },
            },
            _ => true,
        }
    }

    /// Decodes and applies one transaction. The answer is nothing
    /// exactly when the action's arithmetic would not fit in the
    /// store's 32-bit values (`can_apply` is false); the snapshot is
    /// then untouched.
    pub fn apply(&self, state: &mut DGCState, signer: &str, payload_bytes: &[u8]) -> (r: Option<
        Result<(), ApplyError>,
    >)
        ensures
            match decode_payload(payload_bytes@) {
                Err(e) => r == Some(Err::<(), ApplyError>(ApplyError::Decode(e))) && *final(state)
                    == *old(state),
                Ok(p) => {
                    if !payload_requires(old(state)@, signer@, p) {
                        r is None && *final(state) == *old(state)
                    } else {
                        match spec_execute(old(state)@, signer@, p) {
                            Ok(m2) => (r matches Some(res) && res is Ok) && final(state)@ == m2
                                && final(state).base_view() == old(state).base_view(),
                            Err(e) => r == Some(Err::<(), ApplyError>(e)) && *final(state) == *old(
                                state,
                            ),
                        }
                    }
                },
            },
    {
        let payload = match DGCPayload::new(payload_bytes) {
            Ok(p) => p,
            Err(e) => {
                return Some(Err(ApplyError::Decode(e)));
            },
        };
        if !self.can_apply(state, signer, &payload) {
            return None;
        }
        Some(self.apply_action(state, signer, &payload))
    }
}

/// Depositing an amount and then withdrawing the same amount leaves the
/// signer's balance exactly as it was before the pair, on any store
/// where that balance is readable and the deposit fits in a `u32`.
pub proof fn lemma_deposit_withdraw_roundtrip(m: StoreView, signer: Seq<char>, x: u32)
    requires
        spec_read0(m, balance_address(signer)) matches Ok(b) && b + x <= u32::MAX,
    ensures
        spec_deposit(m, signer, x) is Ok,
        spec_withdraw(spec_deposit(m, signer, x)->Ok_0, signer, x) is Ok,
        spec_read0(
            spec_withdraw(spec_deposit(m, signer, x)->Ok_0, signer, x)->Ok_0,
            balance_address(signer),
        ) == spec_read0(m, balance_address(signer)),
{
    let a = balance_address(signer);
    let b = spec_read0(m, a)->Ok_0;
    let nb = (b + x) as u32;
    crate::state::lemma_read_back(m, a, nb);
    let m1 = spec_deposit(m, signer, x)->Ok_0;
    assert((nb - x) as u32 == b);
    crate::state::lemma_read_back(m1, a, b);
}

/// Withdrawing more than the balance fails with `InsufficientBalance`;
/// by `withdraw`'s contract the store is then left untouched, so the
/// balance stays what it was.
pub proof fn lemma_withdraw_insufficient(m: StoreView, signer: Seq<char>, x: u32)
    requires
        spec_read0(m, balance_address(signer)) matches Ok(b) && x > b,
    ensures
        spec_withdraw(m, signer, x) == Err::<StoreView, ApplyError>(
            ApplyError::Validation(ValidationError::InsufficientBalance),
        ),
{
}

/// A transfer within the balance moves exactly the amount: the payer
/// shrinks by it, the beneficiary grows by it, their sum is unchanged,
/// and no other record moves. Two accounts are distinct when their
/// balance addresses are (truncated-digest collisions are the store's
/// accepted addressing risk).
pub proof fn lemma_transfer_moves_exactly(
    m: StoreView,
    payer: Seq<char>,
    beneficiary: Seq<char>,
    x: u32,
)
    requires
        spec_read0(m, balance_address(payer)) matches Ok(pb) && x <= pb,
        spec_read0(m, balance_address(beneficiary)) matches Ok(bb) && bb + x <= u32::MAX,
        balance_address(payer) != balance_address(beneficiary),
    ensures
        spec_transfer(m, payer, beneficiary, x) is Ok,
        ({
            let pb = spec_read0(m, balance_address(payer))->Ok_0;
            let bb = spec_read0(m, balance_address(beneficiary))->Ok_0;
            let m2 = spec_transfer(m, payer, beneficiary, x)->Ok_0;
            &&& spec_read0(m2, balance_address(payer)) == Ok::<u32, StateError>((pb - x) as u32)
            &&& spec_read0(m2, balance_address(beneficiary)) == Ok::<u32, StateError>(
                (bb + x) as u32,
            )
            &&& (pb - x) + (bb + x) == pb + bb
            &&& forall|k: Seq<char>|
                k != balance_address(payer) && k != balance_address(beneficiary)
                    ==> crate::state::spec_get(m2, k) == crate::state::spec_get(m, k)
        }),
{
    let pa = balance_address(payer);
    let ba = balance_address(beneficiary);
    let pb = spec_read0(m, pa)->Ok_0;
    let bb = spec_read0(m, ba)->Ok_0;
    let m1 = m.insert(pa, enc_bytes((pb - x) as u32));
    let m2 = m1.insert(ba, enc_bytes((bb + x) as u32));
    crate::state::lemma_read_back(m, pa, (pb - x) as u32);
    crate::state::lemma_read_frame(m1, ba, enc_bytes((bb + x) as u32), pa);
    crate::state::lemma_read_back(m1, ba, (bb + x) as u32);
    assert forall|k: Seq<char>| k != pa && k != ba implies crate::state::spec_get(m2, k)
        == crate::state::spec_get(m, k) by {
        crate::state::lemma_read_frame(m1, ba, enc_bytes((bb + x) as u32), k);
        crate::state::lemma_read_frame(m, pa, enc_bytes((pb - x) as u32), k);
    }
}

/// The storage addresses an action may read, derived from the decoded
/// action alone so the host can schedule transactions by address set.
pub open spec fn spec_input_addresses(signer: Seq<char>, p: PayloadView) -> Seq<Seq<char>> {
    match p.action {
        Action::Deposit | Action::Withdraw | Action::Balance | Action::BalanceDGC => seq![
            balance_address(signer),
        ],
        Action::Transfer | Action::TransferDGCoin => match p.beneficiary {
            None => Seq::empty(),
            Some(b) => seq![balance_address(signer), balance_address(b)],
        },
        Action::ExchangeDGC => match p.beneficiary {
            None => Seq::empty(),
            Some(cur) => seq![exchange_address(cur)],
        },
        Action::CreditDGC | Action::ApplyCredit => match p.beneficiary {
            None => Seq::empty(),
            Some(cur) => seq![credit_address(signer, cur)],
        },
        Action::SellDGCoin => match p.beneficiary {
            None => Seq::empty(),
            Some(cur) => seq![
                balance_address(signer),
                credit_address(signer, "DGC"@),
                exchange_address(cur),
            ],
        },
        Action::BuyDGCoin => match p.beneficiary {
            None => Seq::empty(),
            Some(cur) => seq![
                balance_address(signer),
                credit_address(signer, cur),
                exchange_address(cur),
            ],
        },
    }
}

/// The storage addresses an action may write, derived likewise.
pub open spec fn spec_output_addresses(signer: Seq<char>, p: PayloadView) -> Seq<Seq<char>> {
    match p.action {
        Action::Deposit | Action::Withdraw => seq![balance_address(signer)],
        Action::Transfer | Action::TransferDGCoin => match p.beneficiary {
            None => Seq::empty(),
            Some(b) => seq![balance_address(signer), balance_address(b)],
        },
        Action::ApplyCredit => match p.beneficiary {
            None => Seq::empty(),
            Some(cur) => seq![credit_address(signer, cur)],
        },
        _ => Seq::empty(),
    }
}

/// The addresses the action may read, ahead of execution.
pub fn input_addresses(signer: &str, payload: &DGCPayload) -> (r: Vec<String>)
    ensures
        views_of(r@) == spec_input_addresses(signer@, payload@),
{
    let r: Vec<String> = match payload.get_action() {
        Action::Deposit | Action::Withdraw | Action::Balance | Action::BalanceDGC => vec![
            crate::address::make_balance_state_address(signer),
        ],
        Action::Transfer | Action::TransferDGCoin => match payload.get_beneficiary() {
            None => Vec::new(),
            Some(b) => vec![
                crate::address::make_balance_state_address(signer),
                crate::address::make_balance_state_address(b.as_str()),
            ],
        },
        Action::ExchangeDGC => match payload.get_currency() {
            None => Vec::new(),
            Some(cur) => vec![crate::address::make_exchange_state_address(cur.as_str())],
        },
        Action::CreditDGC | Action::ApplyCredit => match payload.get_currency() {
            None => Vec::new(),
            Some(cur) => vec![crate::address::make_credit_state_address(signer, cur.as_str())],
        },
        Action::SellDGCoin => match payload.get_currency() {
            None => Vec::new(),
            Some(cur) => vec![
                crate::address::make_balance_state_address(signer),
                crate::address::make_credit_state_address(signer, "DGC"),
                crate::address::make_exchange_state_address(cur.as_str()),
            ],
        },
        Action::BuyDGCoin => match payload.get_currency() {
            None => Vec::new(),
            Some(cur) => vec![
                crate::address::make_balance_state_address(signer),
                crate::address::make_credit_state_address(signer, cur.as_str()),
                crate::address::make_exchange_state_address(cur.as_str()),
            ],
        },
    };
    proof {
        assert(views_of(r@) =~= spec_input_addresses(signer@, payload@));
    }
    r
}

/// The addresses the action may write, ahead of execution.
pub fn output_addresses(signer: &str, payload: &DGCPayload) -> (r: Vec<String>)
    ensures
        views_of(r@) == spec_output_addresses(signer@, payload@),
{
    let r: Vec<String> = match payload.get_action() {
        Action::Deposit | Action::Withdraw => vec![
            crate::address::make_balance_state_address(signer),
        ],
        Action::Transfer | Action::TransferDGCoin => match payload.get_beneficiary() {
            None => Vec::new(),
            Some(b) => vec![
                crate::address::make_balance_state_address(signer),
                crate::address::make_balance_state_address(b.as_str()),
            ],
        },
        Action::ApplyCredit => match payload.get_currency() {
            None => Vec::new(),
            Some(cur) => vec![crate::address::make_credit_state_address(signer, cur.as_str())],
        },
        _ => Vec::new(),
    };
    proof {
        assert(views_of(r@) =~= spec_output_addresses(signer@, payload@));
    }
    r
}

} // verus!
