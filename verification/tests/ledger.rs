use dgc_core::address::make_balance_state_address;
use dgc_core::address::make_credit_state_address;
use dgc_core::errors::ApplyError;
use dgc_core::errors::StateError;
use dgc_core::errors::ValidationError;
use dgc_core::handler::input_addresses;
use dgc_core::handler::output_addresses;
use dgc_core::handler::DGCTransactionHandler;
use dgc_core::payload::DGCPayload;
use dgc_core::state::DGCState;

fn fresh() -> DGCState {
    DGCState::new(Vec::new())
}

#[test]
fn absent_records_read_as_zero() {
    let handler = DGCTransactionHandler::new();
    let mut state = fresh();
    assert_eq!(state.get_balance("alice"), Ok(None));
    assert_eq!(handler.balance(&mut state, "alice"), Ok(0));
    assert_eq!(handler.dgc_exchange(&mut state, "USD"), Ok(0));
    assert_eq!(handler.dgc_credit(&mut state, "alice", "USD"), Ok(0));
}

#[test]
fn written_values_read_back() {
    let mut state = fresh();
    state.set_balance("alice", 42);
    assert_eq!(state.get_balance("alice"), Ok(Some(42)));
    state.set_balance("alice", 0);
    assert_eq!(state.get_balance("alice"), Ok(Some(0)));
    state.set_exchange("USD", 7);
    assert_eq!(state.get_exchange("USD"), Ok(Some(7)));
    state.set_credit("alice", "USD", 9);
    assert_eq!(state.get_credit("alice", "USD"), Ok(Some(9)));
    state.set_sell("USD", "1234", 3);
    assert_eq!(state.get_sell("USD", "1234"), Ok(Some(3)));
    state.set_buy("USD", "1234", 4);
    assert_eq!(state.get_buy("USD", "1234"), Ok(Some(4)));
}

#[test]
fn corrupt_records_are_reported() {
    let handler = DGCTransactionHandler::new();
    let addr = make_balance_state_address("alice");
    let mut state = DGCState::new(vec![(addr, b"xyz".to_vec())]);
    assert_eq!(state.get_balance("alice"), Err(StateError::Corrupt));
    assert_eq!(
        handler.balance(&mut state, "alice"),
        Err(ApplyError::State(StateError::Corrupt))
    );
    let addr2 = make_balance_state_address("bob");
    let state2 = DGCState::new(vec![(addr2, vec![0xff, 0x30])]);
    assert_eq!(state2.get_balance("bob"), Err(StateError::Corrupt));
}

#[test]
fn values_are_persisted_as_decimal_text() {
    let handler = DGCTransactionHandler::new();
    let mut state = fresh();
    handler.deposit(&mut state, "alice", 100).unwrap();
    let writes = state.into_writes();
    assert_eq!(writes.len(), 1);
    assert_eq!(writes[0].0, make_balance_state_address("alice"));
    assert_eq!(writes[0].1, b"100".to_vec());
}

#[test]
fn deposit_then_withdraw_restores_the_balance() {
    let handler = DGCTransactionHandler::new();
    let mut state = fresh();
    handler.deposit(&mut state, "alice", 7).unwrap();
    let before = handler.balance(&mut state, "alice").unwrap();
    handler.deposit(&mut state, "alice", 50).unwrap();
    handler.withdraw(&mut state, "alice", 50).unwrap();
    assert_eq!(handler.balance(&mut state, "alice"), Ok(before));
}

#[test]
fn overdraft_is_rejected_and_balance_kept() {
    let handler = DGCTransactionHandler::new();
    let mut state = fresh();
    handler.deposit(&mut state, "alice", 30).unwrap();
    assert_eq!(
        handler.withdraw(&mut state, "alice", 31),
        Err(ApplyError::Validation(ValidationError::InsufficientBalance))
    );
    assert_eq!(handler.balance(&mut state, "alice"), Ok(30));
}

#[test]
fn transfer_moves_exactly_and_keeps_the_sum() {
    let handler = DGCTransactionHandler::new();
    let mut state = fresh();
    handler.deposit(&mut state, "alice", 100).unwrap();
    handler.deposit(&mut state, "bob", 11).unwrap();
    handler.transfer(&mut state, "alice", "bob", 40).unwrap();
    let a = handler.balance(&mut state, "alice").unwrap();
    let b = handler.balance(&mut state, "bob").unwrap();
    assert_eq!(a, 60);
    assert_eq!(b, 51);
    assert_eq!(a + b, 100 + 11);
}

#[test]
fn transfer_beyond_balance_changes_nothing() {
    let handler = DGCTransactionHandler::new();
    let mut state = fresh();
    handler.deposit(&mut state, "alice", 10).unwrap();
    assert_eq!(
        handler.transfer(&mut state, "alice", "bob", 11),
        Err(ApplyError::Validation(ValidationError::InsufficientBalance))
    );
    assert_eq!(handler.balance(&mut state, "alice"), Ok(10));
    assert_eq!(handler.balance(&mut state, "bob"), Ok(0));
}

#[test]
fn scenario_alice_deposits_transfers_and_overdraws() {
    let handler = DGCTransactionHandler::new();
    let mut state = fresh();
    assert_eq!(handler.balance(&mut state, "alice"), Ok(0));
    assert_eq!(handler.apply(&mut state, "alice", b"deposit,100"), Some(Ok(())));
    assert_eq!(handler.balance(&mut state, "alice"), Ok(100));
    assert_eq!(handler.apply(&mut state, "alice", b"transfer,40,bob"), Some(Ok(())));
    assert_eq!(handler.balance(&mut state, "alice"), Ok(60));
    assert_eq!(handler.balance(&mut state, "bob"), Ok(40));
    assert_eq!(
        handler.apply(&mut state, "alice", b"withdraw,100"),
        Some(Err(ApplyError::Validation(ValidationError::InsufficientBalance)))
    );
    assert_eq!(handler.balance(&mut state, "alice"), Ok(60));
}

#[test]
fn scenario_credit_accumulates() {
    let handler = DGCTransactionHandler::new();
    let mut state = fresh();
    assert_eq!(handler.apply(&mut state, "alice", b"applyCredit,10,USD"), Some(Ok(())));
    assert_eq!(handler.apply(&mut state, "alice", b"applyCredit,5,USD"), Some(Ok(())));
    assert_eq!(handler.dgc_credit(&mut state, "alice", "USD"), Ok(15));
}

#[test]
fn transfer_without_beneficiary_is_missing_argument() {
    let handler = DGCTransactionHandler::new();
    let mut state = fresh();
    assert_eq!(
        handler.apply(&mut state, "alice", b"transfer,50"),
        Some(Err(ApplyError::Validation(ValidationError::MissingArgument)))
    );
    assert_eq!(
        handler.apply(&mut state, "alice", b"applyCredit,5"),
        Some(Err(ApplyError::Validation(ValidationError::MissingArgument)))
    );
    assert_eq!(
        handler.apply(&mut state, "alice", b"dgcExchange,0"),
        Some(Err(ApplyError::Validation(ValidationError::MissingArgument)))
    );
}

#[test]
fn apply_reports_decode_failures() {
    let handler = DGCTransactionHandler::new();
    let mut state = fresh();
    assert_eq!(
        handler.apply(&mut state, "alice", b"frobnicate,1"),
        Some(Err(ApplyError::Decode(dgc_core::errors::DecodeError::UnknownAction)))
    );
}

#[test]
fn apply_refuses_arithmetic_beyond_u32() {
    let handler = DGCTransactionHandler::new();
    let mut state = fresh();
    handler.deposit(&mut state, "alice", u32::MAX).unwrap();
    assert_eq!(handler.apply(&mut state, "alice", b"deposit,1"), None);
    assert_eq!(handler.balance(&mut state, "alice"), Ok(u32::MAX));
}

#[test]
fn buy_needs_credit_at_the_exchange_rate() {
    let handler = DGCTransactionHandler::new();
    let mut state = fresh();
    state.set_exchange("USD", 2);
    state.set_credit("alice", "USD", 5);
    assert_eq!(
        handler.apply(&mut state, "alice", b"buyDGC,3,USD"),
        Some(Err(ApplyError::Validation(ValidationError::InsufficientCredit)))
    );
    state.set_credit("alice", "USD", 6);
    assert_eq!(handler.apply(&mut state, "alice", b"buyDGC,3,USD"), Some(Ok(())));
}

#[test]
fn sell_needs_balance_plus_dgc_credit() {
    let handler = DGCTransactionHandler::new();
    let mut state = fresh();
    state.set_balance("alice", 10);
    state.set_credit("alice", "DGC", 5);
    assert_eq!(
        handler.apply(&mut state, "alice", b"sellDGC,16,USD"),
        Some(Err(ApplyError::Validation(ValidationError::InsufficientBalance)))
    );
    assert_eq!(handler.apply(&mut state, "alice", b"sellDGC,15,USD"), Some(Ok(())));
}

#[test]
fn sell_and_buy_write_nothing() {
    let handler = DGCTransactionHandler::new();
    let entries = vec![
        (make_balance_state_address("alice"), b"30".to_vec()),
        (make_credit_state_address("alice", "USD"), b"50".to_vec()),
    ];
    let mut state = DGCState::new(entries);
    assert_eq!(handler.apply(&mut state, "alice", b"sellDGC,20,USD"), Some(Ok(())));
    assert_eq!(handler.apply(&mut state, "alice", b"buyDGC,9,USD"), Some(Ok(())));
    assert_eq!(state.into_writes(), Vec::new());
}

#[test]
fn queries_write_nothing() {
    let handler = DGCTransactionHandler::new();
    let mut state = fresh();
    assert_eq!(handler.apply(&mut state, "alice", b"balance,0"), Some(Ok(())));
    assert_eq!(handler.apply(&mut state, "alice", b"dgcBalance,0"), Some(Ok(())));
    assert_eq!(handler.apply(&mut state, "alice", b"dgcExchange,0,USD"), Some(Ok(())));
    assert_eq!(handler.apply(&mut state, "alice", b"dgcCredit,0,USD"), Some(Ok(())));
    assert_eq!(state.into_writes(), Vec::new());
}

#[test]
fn declared_address_sets_match_the_action() {
    let transfer = DGCPayload::new(b"transfer,5,bob").unwrap();
    let inputs = input_addresses("alice", &transfer);
    let outputs = output_addresses("alice", &transfer);
    let expected =
        vec![make_balance_state_address("alice"), make_balance_state_address("bob")];
    assert_eq!(inputs, expected);
    assert_eq!(outputs, expected);

    let query = DGCPayload::new(b"balance,0").unwrap();
    assert_eq!(input_addresses("alice", &query), vec![make_balance_state_address("alice")]);
    assert_eq!(output_addresses("alice", &query), Vec::<String>::new());

    let credit = DGCPayload::new(b"applyCredit,5,USD").unwrap();
    assert_eq!(
        input_addresses("alice", &credit),
        vec![make_credit_state_address("alice", "USD")]
    );
    assert_eq!(
        output_addresses("alice", &credit),
        vec![make_credit_state_address("alice", "USD")]
    );
}

#[test]
fn handler_registration_identity() {
    let handler = DGCTransactionHandler::new();
    assert_eq!(handler.family_name(), "dgc-core");
    assert_eq!(handler.family_versions(), vec!["1.0".to_string()]);
    assert_eq!(handler.namespaces(), vec![dgc_core::address::get_dgc_prefix()]);
}

#[test]
fn transfer_to_self_applies_both_writes_in_order() {
    // Both balances are read before either write; for a self-transfer
    // the beneficiary write therefore lands last.
    let handler = DGCTransactionHandler::new();
    let mut state = fresh();
    handler.deposit(&mut state, "alice", 10).unwrap();
    handler.transfer(&mut state, "alice", "alice", 4).unwrap();
    assert_eq!(handler.balance(&mut state, "alice"), Ok(14));
}

#[test]
fn writes_override_the_supplied_snapshot() {
    let mut state = DGCState::new(vec![(make_balance_state_address("alice"), b"5".to_vec())]);
    assert_eq!(state.get_balance("alice"), Ok(Some(5)));
    state.set_balance("alice", 9);
    assert_eq!(state.get_balance("alice"), Ok(Some(9)));
}

#[test]
fn sell_declares_balance_credit_and_rate_reads() {
    let sell = DGCPayload::new(b"sellDGC,5,USD").unwrap();
    assert_eq!(
        input_addresses("alice", &sell),
        vec![
            make_balance_state_address("alice"),
            make_credit_state_address("alice", "DGC"),
            dgc_core::address::make_exchange_state_address("USD"),
        ]
    );
    assert_eq!(output_addresses("alice", &sell), Vec::<String>::new());
}
