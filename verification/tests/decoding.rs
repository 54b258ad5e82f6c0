use dgc_core::errors::DecodeError;
use dgc_core::numeric::parse_u32_str;
use dgc_core::numeric::u32_to_dec_string;
use dgc_core::payload::Action;
use dgc_core::payload::DGCPayload;
use dgc_core::text::split_commas_exec;
use dgc_core::text::str_eq;

#[test]
fn decode_deposit_with_two_fields() {
    let p = DGCPayload::new(b"deposit,50").unwrap();
    assert_eq!(p.get_action(), Action::Deposit);
    assert_eq!(p.get_value(), 50);
    assert_eq!(p.get_beneficiary(), &None);
}

#[test]
fn decode_transfer_with_beneficiary() {
    let p = DGCPayload::new(b"transfer,50,bob").unwrap();
    assert_eq!(p.get_action(), Action::Transfer);
    assert_eq!(p.get_value(), 50);
    assert_eq!(p.get_beneficiary(), &Some("bob".to_string()));
    assert_eq!(p.get_currency(), &Some("bob".to_string()));
}

#[test]
fn decode_every_action_name() {
    let cases: [(&[u8], Action); 11] = [
        (b"deposit,1", Action::Deposit),
        (b"withdraw,1", Action::Withdraw),
        (b"balance,1", Action::Balance),
        (b"transfer,1", Action::Transfer),
        (b"dgcBalance,1", Action::BalanceDGC),
        (b"dgcCredit,1", Action::CreditDGC),
        (b"dgcExchange,1", Action::ExchangeDGC),
        (b"applyCredit,1", Action::ApplyCredit),
        (b"transferDGC,1", Action::TransferDGCoin),
        (b"sellDGC,1", Action::SellDGCoin),
        (b"buyDGC,1", Action::BuyDGCoin),
    ];
    for (bytes, action) in cases {
        assert_eq!(DGCPayload::new(bytes).unwrap().get_action(), action);
    }
}

#[test]
fn decode_rejects_invalid_utf8() {
    assert_eq!(DGCPayload::new(&[0xff, 0xfe, 0x2c, 0x31]), Err(DecodeError::Encoding));
}

#[test]
fn decode_rejects_wrong_field_count() {
    assert_eq!(DGCPayload::new(b"deposit"), Err(DecodeError::Malformed));
    assert_eq!(DGCPayload::new(b"deposit,1,bob,extra"), Err(DecodeError::Malformed));
    assert_eq!(DGCPayload::new(b""), Err(DecodeError::Malformed));
}

#[test]
fn decode_rejects_empty_action() {
    assert_eq!(DGCPayload::new(b",50"), Err(DecodeError::Malformed));
}

#[test]
fn decode_rejects_empty_third_field() {
    assert_eq!(DGCPayload::new(b"deposit,50,"), Err(DecodeError::Malformed));
}

#[test]
fn decode_rejects_unknown_action() {
    assert_eq!(DGCPayload::new(b"frobnicate,1"), Err(DecodeError::UnknownAction));
}

#[test]
fn decode_rejects_negative_amount() {
    assert_eq!(DGCPayload::new(b"withdraw,-5"), Err(DecodeError::InvalidAmount));
}

#[test]
fn decode_rejects_amounts_beyond_u32() {
    assert_eq!(DGCPayload::new(b"deposit,4294967296"), Err(DecodeError::InvalidAmount));
    let p = DGCPayload::new(b"deposit,4294967295").unwrap();
    assert_eq!(p.get_value(), u32::MAX);
}

#[test]
fn decode_accepts_a_leading_plus() {
    assert_eq!(DGCPayload::new(b"deposit,+50").unwrap().get_value(), 50);
    assert_eq!(DGCPayload::new(b"deposit,"), Err(DecodeError::InvalidAmount));
    assert_eq!(DGCPayload::new(b"deposit,+"), Err(DecodeError::InvalidAmount));
}

#[test]
fn split_keeps_empty_fields_and_order() {
    let f = split_commas_exec("a,,b");
    assert_eq!(f, vec!["a".to_string(), "".to_string(), "b".to_string()]);
    assert_eq!(split_commas_exec(""), vec!["".to_string()]);
    assert_eq!(split_commas_exec("xy"), vec!["xy".to_string()]);
}

#[test]
fn parse_and_render_decimal() {
    assert_eq!(u32_to_dec_string(0), "0");
    assert_eq!(u32_to_dec_string(105), "105");
    assert_eq!(u32_to_dec_string(u32::MAX), "4294967295");
    assert_eq!(parse_u32_str("105"), Some(105));
    assert_eq!(parse_u32_str("0007"), Some(7));
    assert_eq!(parse_u32_str(""), None);
    assert_eq!(parse_u32_str("12a"), None);
    assert_eq!(parse_u32_str("4294967295"), Some(u32::MAX));
    assert_eq!(parse_u32_str("4294967296"), None);
    assert_eq!(parse_u32_str("99999999999999999999"), None);
}

#[test]
fn string_equality_is_by_characters() {
    assert!(str_eq("abc", "abc"));
    assert!(!str_eq("abc", "abd"));
    assert!(!str_eq("abc", "ab"));
    assert!(str_eq("", ""));
}
