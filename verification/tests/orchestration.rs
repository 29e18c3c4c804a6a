use mint_service::check_tx_hash;
use mint_service::config::validate_config;
use mint_service::errors::{error_message, MintError, StartupError};
use mint_service::number::Decimal;
use mint_service::oracle::{classify_price_body, price_step, OracleOutcome};
use mint_service::orchestrator::{
    begin_submission, mint_reply, on_oracle_reply, on_submit_reply, prepare_metadata, start_mint,
    MintReply, MintState,
};
use mint_service::property::PropertyRecord;
use mint_service::reader::read_token_metadata;
use mint_service::submit::{
    advance_transaction, new_mint_transaction, submit_outcome, submit_transition, SubmitEvent,
    SubmitPhase,
};

fn dec(negative: bool, int_digits: &str, frac_digits: &str) -> Decimal {
    Decimal {
        negative,
        int_digits: int_digits.as_bytes().to_vec(),
        frac_digits: frac_digits.as_bytes().to_vec(),
    }
}

fn test_record() -> PropertyRecord {
    PropertyRecord {
        name: b"Test House".to_vec(),
        bedrooms: 3,
        bathrooms: dec(false, "2", "0"),
        sqft_living: 1500,
        sqft_lot: 5000,
        floors: 1,
        waterfront: 0,
        view: 0,
        condition: 3,
        grade: 7,
        sqft_above: 1500,
        sqft_basement: 0,
        yr_built: 1990,
        yr_renovated: 0,
        zipcode: 98101,
        lat: dec(false, "47", "5"),
        long: dec(true, "122", "2"),
        sqft_living15: 1500,
        sqft_lot15: 5000,
        month: 5,
        year: 2014,
    }
}

fn valid_hash() -> Vec<u8> {
    let mut h = b"0x".to_vec();
    h.extend_from_slice(&[b'a'; 64]);
    h
}

#[test]
fn oracle_failure_never_reaches_the_submitter() {
    let mut submitter_calls = 0u32;
    let (state, _body) = start_mint(test_record());
    let state = on_oracle_reply(state, OracleOutcome::Unreachable);
    // only a request that advanced past the price step may be prepared and
    // submitted; a failed one stays terminal and the submitter is not driven
    let state = match state {
        MintState::PriceObtained(r, p) => {
            let st = prepare_metadata(MintState::PriceObtained(r, p));
            let (st, _phase, _payload) = begin_submission(st);
            submitter_calls += 1;
            st
        },
        other => other,
    };
    assert_eq!(submitter_calls, 0);
    match &state {
        MintState::Failed(e) => assert_eq!(*e, MintError::UpstreamUnavailable),
        _ => panic!("price failure must end the request"),
    }
    let reply = mint_reply(&state).unwrap();
    assert!(matches!(reply, MintReply::Failure(_)));
}

#[test]
fn each_oracle_failure_maps_to_its_error_class() {
    for (outcome, err) in [
        (OracleOutcome::Unreachable, MintError::UpstreamUnavailable),
        (OracleOutcome::NotJson, MintError::UpstreamProtocolError),
        (OracleOutcome::NoPrice, MintError::UpstreamDataMissing),
        (OracleOutcome::PriceText(b"\"oops\"".to_vec()), MintError::UpstreamDataMissing),
        (OracleOutcome::PriceText(b"-3.5".to_vec()), MintError::UpstreamDataMissing),
    ] {
        let (state, _body) = start_mint(test_record());
        let state = on_oracle_reply(state, outcome);
        match state {
            MintState::Failed(e) => assert_eq!(e, err),
            _ => panic!("expected a terminal failure"),
        }
    }
}

#[test]
fn successful_mint_carries_the_confirmed_hash() {
    let (state, body) = start_mint(test_record());
    assert!(!body.is_empty());
    let state = on_oracle_reply(state, OracleOutcome::PriceText(b"450000.0".to_vec()));
    assert!(matches!(state, MintState::PriceObtained(_, _)));
    let state = prepare_metadata(state);
    assert!(matches!(state, MintState::MetadataBuilt(_)));
    let (state, phase, payload) = begin_submission(state);
    assert!(!payload.is_empty());
    let phase = submit_transition(phase, SubmitEvent::Accepted(b"0xprov".to_vec()));
    let phase = submit_transition(phase, SubmitEvent::Included(valid_hash()));
    assert!(matches!(phase, SubmitPhase::Confirmed(_)));
    let state = on_submit_reply(state, phase);
    match &state {
        MintState::TxConfirmed(h) => {
            assert_eq!(h.len(), 66);
            assert!(check_tx_hash(h));
        },
        _ => panic!("expected confirmation"),
    }
    match mint_reply(&state).unwrap() {
        MintReply::Success(h, m) => {
            assert_eq!(h, valid_hash());
            assert_eq!(m, b"NFT minted successfully.".to_vec());
        },
        MintReply::Failure(_) => panic!("expected success"),
    }
}

#[test]
fn malformed_inclusion_hash_never_confirms() {
    let phase = SubmitPhase::Pending(b"0xprov".to_vec());
    let phase = submit_transition(phase, SubmitEvent::Included(b"0xshort".to_vec()));
    match phase {
        SubmitPhase::Failed(e) => assert_eq!(e, MintError::ConfirmationFailed),
        _ => panic!("a malformed identifier must not confirm"),
    }
}

#[test]
fn timeout_and_rejection_answer_differently() {
    let rejected = submit_transition(SubmitPhase::Submitted, SubmitEvent::PoolRejected);
    let timed_out = submit_transition(
        SubmitPhase::Pending(b"0xprov".to_vec()),
        SubmitEvent::TimedOut,
    );
    let msg = |phase: SubmitPhase| -> Vec<u8> {
        let (state, _body) = start_mint(test_record());
        let state = on_oracle_reply(state, OracleOutcome::PriceText(b"450000.0".to_vec()));
        let state = prepare_metadata(state);
        let (state, _phase0, _payload) = begin_submission(state);
        let state = on_submit_reply(state, phase);
        match mint_reply(&state).unwrap() {
            MintReply::Failure(m) => m,
            MintReply::Success(_, _) => panic!("expected failure"),
        }
    };
    let m_rejected = msg(rejected);
    let m_timed_out = msg(timed_out);
    assert_ne!(m_rejected, m_timed_out);
    assert_eq!(m_rejected, error_message(MintError::SubmissionRejected));
    assert_eq!(m_timed_out, error_message(MintError::ConfirmationTimeout));
}

#[test]
fn transaction_keeps_recipient_and_payload_through_its_life() {
    let tx = new_mint_transaction(b"0xrecipient".to_vec(), b"{}".to_vec());
    assert!(matches!(tx.phase, SubmitPhase::Submitted));
    let tx = advance_transaction(tx, SubmitEvent::Accepted(b"0xprov".to_vec()));
    assert_eq!(tx.recipient, b"0xrecipient".to_vec());
    assert!(matches!(tx.phase, SubmitPhase::Pending(_)));
    let tx = advance_transaction(tx, SubmitEvent::Included(valid_hash()));
    assert_eq!(tx.metadata_payload, b"{}".to_vec());
    match &tx.phase {
        SubmitPhase::Confirmed(h) => assert_eq!(*h, valid_hash()),
        _ => panic!("expected confirmation"),
    }
}

#[test]
fn submit_outcome_reads_only_terminal_phases() {
    assert!(submit_outcome(&SubmitPhase::Submitted).is_none());
    assert!(submit_outcome(&SubmitPhase::Pending(b"0xprov".to_vec())).is_none());
    match submit_outcome(&SubmitPhase::Confirmed(valid_hash())) {
        Some(Ok(h)) => assert_eq!(h, valid_hash()),
        _ => panic!("a confirmed phase yields its identifier"),
    }
    match submit_outcome(&SubmitPhase::Failed(MintError::ConfirmationTimeout)) {
        Some(Err(e)) => assert_eq!(e, MintError::ConfirmationTimeout),
        _ => panic!("a failed phase yields its error class"),
    }
}

#[test]
fn revert_fails_confirmation() {
    let phase = submit_transition(SubmitPhase::Pending(b"0xprov".to_vec()), SubmitEvent::Reverted);
    match phase {
        SubmitPhase::Failed(e) => assert_eq!(e, MintError::ConfirmationFailed),
        _ => panic!("a revert must fail the request"),
    }
}

#[test]
fn all_error_messages_are_distinct() {
    let all = [
        MintError::UpstreamUnavailable,
        MintError::UpstreamProtocolError,
        MintError::UpstreamDataMissing,
        MintError::SubmissionRejected,
        MintError::ConfirmationTimeout,
        MintError::ConfirmationFailed,
    ];
    for (i, a) in all.iter().enumerate() {
        for (j, b) in all.iter().enumerate() {
            if i != j {
                assert_ne!(error_message(*a), error_message(*b));
            }
        }
    }
}

#[test]
fn reader_returns_empty_metadata_for_invalid_json() {
    let r = read_token_metadata(7, b"definitely not json".to_vec());
    assert_eq!(r.token_id, 7);
    assert!(r.metadata_json.is_none());
}

#[test]
fn reader_keeps_valid_json() {
    let r = read_token_metadata(9, b"{\"name\":\"x\"}".to_vec());
    assert_eq!(r.token_id, 9);
    assert_eq!(r.metadata_json.unwrap(), b"{\"name\":\"x\"}".to_vec());
}

#[test]
fn classify_price_body_sorts_responses() {
    assert!(matches!(
        classify_price_body(&b"nonsense".to_vec()),
        OracleOutcome::NotJson
    ));
    assert!(matches!(classify_price_body(&b"{}".to_vec()), OracleOutcome::NoPrice));
    match classify_price_body(&b"{\"price\": 450000.0}".to_vec()) {
        OracleOutcome::PriceText(t) => assert_eq!(t, b"450000".to_vec()),
        _ => panic!("expected the price text"),
    }
    // a string-valued price is not a numeric member
    assert!(matches!(
        classify_price_body(&b"{\"price\": \"450000\"}".to_vec()),
        OracleOutcome::NoPrice
    ));
}

#[test]
fn exponent_form_prices_are_usable() {
    // serde_json stores 1e16 as a float; its plain decimal text is accepted
    match classify_price_body(&b"{\"price\": 1e16}".to_vec()) {
        OracleOutcome::PriceText(t) => assert_eq!(t, b"10000000000000000".to_vec()),
        _ => panic!("expected the price text"),
    }
    match price_step(classify_price_body(&b"{\"price\": 1e16}".to_vec())) {
        Ok(p) => {
            assert!(!p.negative);
            assert_eq!(p.int_digits, b"10000000000000000".to_vec());
            assert_eq!(p.frac_digits, b"0".to_vec());
        },
        Err(_) => panic!("an exponent-form price is a valid non-negative number"),
    }
}

#[test]
fn price_step_canonicalizes_whole_number_prices() {
    match price_step(OracleOutcome::PriceText(b"450000".to_vec())) {
        Ok(p) => {
            assert!(!p.negative);
            assert_eq!(p.int_digits, b"450000".to_vec());
            assert_eq!(p.frac_digits, b"0".to_vec());
        },
        Err(_) => panic!("a whole-number price is usable"),
    }
}

#[test]
fn config_validation_is_exact() {
    let mut addr = b"0x".to_vec();
    addr.extend_from_slice(&[b'1'; 40]);
    assert!(validate_config(b"https://rpc.example".to_vec(), b"key".to_vec(), addr.clone()).is_ok());
    assert!(validate_config(b"http://rpc.example".to_vec(), b"key".to_vec(), addr.clone()).is_ok());
    match validate_config(b"ftp://rpc.example".to_vec(), b"key".to_vec(), addr.clone()) {
        Err(e) => assert_eq!(e, StartupError::ConfigurationInvalid),
        Ok(_) => panic!("a non-HTTP scheme must be refused"),
    }
    match validate_config(b"https://rpc.example".to_vec(), b"".to_vec(), addr.clone()) {
        Err(e) => assert_eq!(e, StartupError::ConfigurationInvalid),
        Ok(_) => panic!("an empty signing credential must be refused"),
    }
    match validate_config(b"https://rpc.example".to_vec(), b"key".to_vec(), b"0x123".to_vec()) {
        Err(e) => assert_eq!(e, StartupError::ConfigurationInvalid),
        Ok(_) => panic!("a malformed contract address must be refused"),
    }
}

#[test]
fn tx_hash_check_is_exact() {
    assert!(check_tx_hash(&valid_hash()));
    assert!(!check_tx_hash(&b"0x".to_vec()));
    assert!(!check_tx_hash(&Vec::new()));
    let mut bad = valid_hash();
    bad[65] = b'g';
    assert!(!check_tx_hash(&bad));
    let mut no_prefix = valid_hash();
    no_prefix[0] = b'1';
    assert!(!check_tx_hash(&no_prefix));
}
