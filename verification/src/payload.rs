//! Instruction payload decoding.
//!
//! A payload is UTF-8 text of the form `action,amount[,extra]`: two or
//! three comma-separated fields. The action field names one of the
//! ledger's actions, the amount field is a decimal `u32`, and the
//! optional third field carries a beneficiary account or a currency
//! code, depending on the action. Decoding is action-agnostic about
//! which third field is needed; the handler demands it when it uses it.

use vstd::prelude::*;
use vstd::string::*;
use vstd::utf8::*;

use crate::errors::DecodeError;
use crate::numeric::parse_u32;
use crate::text::split_commas;
use crate::text::split_commas_exec;
use crate::text::str_eq;
use crate::text::views_of;

verus! {

/// Every action this ledger family knows.
#[derive(Clone, Copy, Debug, PartialEq, Eq, Structural)]
pub enum Action {
    Deposit,
    Withdraw,
    Balance,
    Transfer,
    BalanceDGC,
    CreditDGC,
    ExchangeDGC,
    ApplyCredit,
    TransferDGCoin,
    SellDGCoin,
    BuyDGCoin,
}

/// The action named by a payload's first field.
pub open spec fn action_of(s: Seq<char>) -> Option<Action> {
    if s == "deposit"@ {
        Some(Action::Deposit)
    } else if s == "withdraw"@ {
        Some(Action::Withdraw)
    } else if s == "balance"@ {
        Some(Action::Balance)
    } else if s == "transfer"@ {
        Some(Action::Transfer)
    } else if s == "dgcBalance"@ {
        Some(Action::BalanceDGC)
    } else if s == "dgcCredit"@ {
        Some(Action::CreditDGC)
    } else if s == "dgcExchange"@ {
        Some(Action::ExchangeDGC)
    } else if s == "applyCredit"@ {
        Some(Action::ApplyCredit)
    } else if s == "transferDGC"@ {
        Some(Action::TransferDGCoin)
    } else if s == "sellDGC"@ {
        Some(Action::SellDGCoin)
    } else if s == "buyDGC"@ {
        Some(Action::BuyDGCoin)
    } else {
        None
    }
}

fn parse_action(f: &str) -> (r: Option<Action>)
    ensures
        r == action_of(f@),
{
    if str_eq(f, "deposit") {
        Some(Action::Deposit)
    } else if str_eq(f, "withdraw") {
        Some(Action::Withdraw)
    } else if str_eq(f, "balance") {
        Some(Action::Balance)
    } else if str_eq(f, "transfer") {
        Some(Action::Transfer)
    } else if str_eq(f, "dgcBalance") {
        Some(Action::BalanceDGC)
    } else if str_eq(f, "dgcCredit") {
        Some(Action::CreditDGC)
    } else if str_eq(f, "dgcExchange") {
        Some(Action::ExchangeDGC)
    } else if str_eq(f, "applyCredit") {
        Some(Action::ApplyCredit)
    } else if str_eq(f, "transferDGC") {
        Some(Action::TransferDGCoin)
    } else if str_eq(f, "sellDGC") {
        Some(Action::SellDGCoin)
    } else if str_eq(f, "buyDGC") {
        Some(Action::BuyDGCoin)
    } else {
        None
    }
}

/// The mathematical content of a decoded payload.
pub ghost struct PayloadView {
    pub action: Action,
    pub value: u32,
    pub beneficiary: Option<Seq<char>>,
}

pub open spec fn opt_view(o: Option<String>) -> Option<Seq<char>> {
    match o {
        Some(s) => Some(s@),
        None => None,
    }
}

/// What decoding a payload byte string yields: a typed action or the
/// exact error, for every input.
pub open spec fn decode_payload(bytes: Seq<u8>) -> Result<PayloadView, DecodeError> {
    if !valid_utf8(bytes) {
        Err(DecodeError::Encoding)
    } else {
        let items = split_commas(decode_utf8(bytes));
        if items.len() < 2 || items.len() > 3 {
            Err(DecodeError::Malformed)
        } else if items[0].len() == 0 {
            Err(DecodeError::Malformed)
        } else {
            match action_of(items[0]) {
                None => Err(DecodeError::UnknownAction),
                Some(action) => match parse_u32(items[1]) {
                    None => Err(DecodeError::InvalidAmount),
                    Some(value) => {
                        if items.len() == 3 && items[2].len() == 0 {
                            Err(DecodeError::Malformed)
                        } else {
                            Ok(
                                PayloadView {
                                    action,
                                    value,
                                    beneficiary: if items.len() == 3 {
                                        Some(items[2])
                                    } else {
                                        None
                                    },
                                },
                            )
                        }
                    },
                },
            }
        }
    }
}

/// A decoded instruction: the action, its amount, and the optional
/// third field (a beneficiary account or a currency code).
#[derive(Debug, PartialEq, Eq)]
pub struct DGCPayload {
    action: Action,
    value: u32,
    beneficiary_pubkey: Option<String>,
}

impl View for DGCPayload {
    type V = PayloadView;

    closed spec fn view(&self) -> PayloadView {
        PayloadView {
            action: self.action,
            value: self.value,
            beneficiary: opt_view(self.beneficiary_pubkey),
        }
    }
}

impl DGCPayload {
    /// Decodes an instruction byte string, or says exactly why it is
    /// rejected.
    pub fn new(payload: &[u8]) -> (r: Result<DGCPayload, DecodeError>)
        ensures
            match r {
                Ok(p) => decode_payload(payload@) matches Ok(v) && p@ == v,
                Err(e) => decode_payload(payload@) == Err::<PayloadView, DecodeError>(e),
            },
    {
        let s = match crate::text::bytes_to_string(payload) {
            Some(s) => s,
            None => {
                return Err(DecodeError::Encoding);
            },
        };
        let fields = split_commas_exec(s.as_str());
        let ghost items = split_commas(decode_utf8(payload@));
        proof {
            assert(views_of(fields@) == items);
            assert(fields@.len() == items.len());
        }
        if fields.len() < 2 || fields.len() > 3 {
            return Err(DecodeError::Malformed);
        }
        if fields[0].as_str().unicode_len() == 0 {
            return Err(DecodeError::Malformed);
        }
        let action = match parse_action(fields[0].as_str()) {
            Some(a) => a,
            None => {
                return Err(DecodeError::UnknownAction);
            },
        };
        let value = match crate::numeric::parse_u32_str(fields[1].as_str()) {
            Some(v) => v,
            None => {
                return Err(DecodeError::InvalidAmount);
            },
        };
        let beneficiary_pubkey = if fields.len() == 3 {
            if fields[2].as_str().unicode_len() == 0 {
                return Err(DecodeError::Malformed);
            }
            Some(fields[2].clone())
        } else {
            None
        };
        Ok(DGCPayload { action, value, beneficiary_pubkey })
    }

    pub fn get_action(&self) -> (r: Action)
        ensures
            r == self@.action,
    {
        self.action
    }

    pub fn get_value(&self) -> (r: u32)
        ensures
            r == self@.value,
    {
        self.value
    }

    /// The third payload field, read as a beneficiary account.
    pub fn get_beneficiary(&self) -> (r: &Option<String>)
        ensures
            opt_view(*r) == self@.beneficiary,
    {
        &self.beneficiary_pubkey
    }

    /// The third payload field, read as a currency code.
    pub fn get_currency(&self) -> (r: &Option<String>)
        ensures
            opt_view(*r) == self@.beneficiary,
    {
        &self.beneficiary_pubkey
    }
}

} // verus!
