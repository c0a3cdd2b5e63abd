//! Single-transaction admission: policy gates, fee enforcement, signature
//! orchestration.

use rollup_core::admission::{SubmitAnswers, TxSender};
use rollup_core::error::{SubmitError, TxAddError};
use rollup_core::types::{
    Address, ChangePubKey, Close, ForcedExit, Token, Transfer, Tx, TxEthSignature, Withdraw,
};

fn addr(b: u8) -> Address {
    Address([b; 20])
}

fn transfer(fee: u128) -> Tx {
    Tx::Transfer(Transfer {
        account_id: 1,
        from: addr(1),
        to: addr(2),
        token: 0,
        amount: 100,
        fee,
        nonce: 0,
    })
}

fn withdraw(fast: bool) -> Tx {
    Tx::Withdraw(Withdraw {
        account_id: 1,
        from: addr(1),
        to: addr(2),
        token: 0,
        amount: 100,
        fee: 10,
        nonce: 0,
        fast,
    })
}

fn eth_token() -> Token {
    Token { id: 0, symbol: b"ETH".to_vec(), decimals: 18 }
}

fn gnt_token() -> Token {
    Token { id: 16, symbol: b"GNT".to_vec(), decimals: 18 }
}

fn signature() -> Option<TxEthSignature> {
    Some(TxEthSignature { bytes: vec![7; 65] })
}

fn happy_answers() -> SubmitAnswers {
    SubmitAnswers {
        now: 1_000_000,
        target_account_created_at: Some(0),
        token: Some(eth_token()),
        fee_token_allowed: true,
        required_fee: 5,
        first_verify: Ok(()),
        legacy_verify: Err(TxAddError::IncorrectEthSignature),
        core_send: Ok(Ok(())),
    }
}

fn sender() -> TxSender {
    TxSender::new(86_400, false)
}

#[test]
fn close_transactions_are_rejected() {
    let tx = Tx::Close(Close { account: addr(1), nonce: 0 });
    let r = sender().submit_tx(tx, signature(), None, happy_answers());
    assert_eq!(r, Err(SubmitError::AccountCloseDisabled));
}

#[test]
fn forced_exit_young_account_is_rejected() {
    let tx = Tx::ForcedExit(ForcedExit {
        initiator_account_id: 1,
        target: addr(2),
        token: 0,
        fee: 10,
        nonce: 0,
    });
    let mut answers = happy_answers();
    // The account came into being one second short of the minimum age ago.
    answers.now = 100_000;
    answers.target_account_created_at = Some(100_000 - 86_400 + 1);
    let r = sender().submit_tx(tx, signature(), None, answers);
    assert!(matches!(r, Err(SubmitError::InvalidParams(_))));
}

#[test]
fn forced_exit_at_exact_threshold_is_accepted() {
    let tx = Tx::ForcedExit(ForcedExit {
        initiator_account_id: 1,
        target: addr(2),
        token: 0,
        fee: 10,
        nonce: 0,
    });
    let mut answers = happy_answers();
    answers.now = 100_000;
    answers.target_account_created_at = Some(100_000 - 86_400);
    let r = sender().submit_tx(tx, signature(), None, answers);
    assert!(r.is_ok());
}

#[test]
fn forced_exit_missing_account_is_rejected() {
    let tx = Tx::ForcedExit(ForcedExit {
        initiator_account_id: 1,
        target: addr(2),
        token: 0,
        fee: 10,
        nonce: 0,
    });
    let mut answers = happy_answers();
    answers.target_account_created_at = None;
    let r = sender().submit_tx(tx, signature(), None, answers);
    assert!(matches!(r, Err(SubmitError::InvalidParams(_))));
}

#[test]
fn fast_processing_on_transfer_is_rejected() {
    let r = sender().submit_tx(transfer(10), signature(), Some(true), happy_answers());
    assert!(matches!(r, Err(SubmitError::UnsupportedFastProcessing)));
}

#[test]
fn fast_processing_on_withdraw_is_accepted() {
    let r = sender().submit_tx(withdraw(false), signature(), Some(true), happy_answers());
    assert!(r.is_ok());
}

#[test]
fn preset_fast_flag_is_rejected_even_with_fast_processing() {
    let r = sender().submit_tx(withdraw(true), signature(), Some(true), happy_answers());
    assert!(matches!(r, Err(SubmitError::IncorrectTx(_))));
}

#[test]
fn disallowed_fee_token_is_rejected() {
    let mut answers = happy_answers();
    answers.fee_token_allowed = false;
    let r = sender().submit_tx(transfer(10), signature(), None, answers);
    assert_eq!(r, Err(SubmitError::InappropriateFeeToken));
}

#[test]
fn fee_below_requirement_is_rejected() {
    let mut answers = happy_answers();
    // Scaling 10 up by 5% or one cent still leaves it short of 100.
    answers.required_fee = 100;
    let r = sender().submit_tx(transfer(10), signature(), None, answers);
    assert_eq!(r, Err(SubmitError::TxAdd(TxAddError::TxFeeTooLow)));
}

#[test]
fn sufficient_fee_is_accepted() {
    let mut answers = happy_answers();
    answers.required_fee = 100;
    let r = sender().submit_tx(transfer(1_000), signature(), None, answers);
    assert!(r.is_ok());
}

#[test]
fn missing_signature_is_rejected() {
    let r = sender().submit_tx(transfer(10), None, None, happy_answers());
    assert_eq!(r, Err(SubmitError::TxAdd(TxAddError::MissingEthSignature)));
}

#[test]
fn unknown_token_is_rejected() {
    let mut answers = happy_answers();
    answers.token = None;
    let r = sender().submit_tx(transfer(10), signature(), None, answers);
    assert!(matches!(r, Err(SubmitError::Other(_))));
}

#[test]
fn verification_failure_is_reported() {
    let mut answers = happy_answers();
    answers.first_verify = Err(TxAddError::IncorrectEthSignature);
    let r = sender().submit_tx(transfer(10), signature(), None, answers);
    assert_eq!(r, Err(SubmitError::TxAdd(TxAddError::IncorrectEthSignature)));
}

#[test]
fn legacy_token_retry_can_rescue_verification() {
    let mut answers = happy_answers();
    answers.token = Some(gnt_token());
    answers.first_verify = Err(TxAddError::IncorrectEthSignature);
    answers.legacy_verify = Ok(());
    let r = sender().submit_tx(transfer(10), signature(), None, answers);
    assert!(r.is_ok());
}

#[test]
fn legacy_retry_failure_reports_the_original_error() {
    let mut answers = happy_answers();
    answers.token = Some(gnt_token());
    answers.first_verify = Err(TxAddError::NonceMismatch);
    answers.legacy_verify = Err(TxAddError::IncorrectEthSignature);
    let r = sender().submit_tx(transfer(10), signature(), None, answers);
    assert_eq!(r, Err(SubmitError::TxAdd(TxAddError::NonceMismatch)));
}

#[test]
fn legacy_retry_does_not_apply_to_other_tokens() {
    let mut answers = happy_answers();
    answers.first_verify = Err(TxAddError::NonceMismatch);
    answers.legacy_verify = Ok(());
    let r = sender().submit_tx(transfer(10), signature(), None, answers);
    assert_eq!(r, Err(SubmitError::TxAdd(TxAddError::NonceMismatch)));
}

#[test]
fn transport_failure_is_reported_as_communication_error() {
    let mut answers = happy_answers();
    answers.core_send = Err("connection refused".to_string());
    let r = sender().submit_tx(transfer(10), signature(), None, answers);
    assert!(matches!(r, Err(SubmitError::CommunicationCoreServer(_))));
}

#[test]
fn mempool_rejection_is_reported() {
    let mut answers = happy_answers();
    answers.core_send = Ok(Err(TxAddError::TxDuplicate));
    let r = sender().submit_tx(transfer(10), signature(), None, answers);
    assert_eq!(r, Err(SubmitError::TxAdd(TxAddError::TxDuplicate)));
}

#[test]
fn accepted_hash_ignores_the_fast_flag() {
    // The fast flag is a server-side option outside the signed content, so
    // the returned hash equals the plain transaction's hash.
    let r = sender().submit_tx(withdraw(false), signature(), Some(true), happy_answers());
    let expected = withdraw(false).hash();
    assert_eq!(r.unwrap(), expected);
}

fn change_pub_key(fee: u128) -> Tx {
    Tx::ChangePubKey(ChangePubKey {
        account_id: 1,
        account: addr(1),
        new_pk_hash: [9; 20],
        fee_token: 0,
        fee,
        nonce: 0,
    })
}

#[test]
fn pubkey_change_fee_is_permissive_by_default() {
    let mut answers = happy_answers();
    answers.required_fee = 100;
    answers.token = None;
    // Signing-key changes carry no signing message, and their fee is not
    // enforced unless configuration forces it.
    let r = TxSender::new(86_400, false).submit_tx(change_pub_key(1), None, None, answers);
    assert!(r.is_ok());
}

#[test]
fn pubkey_change_fee_can_be_enforced() {
    let mut answers = happy_answers();
    answers.required_fee = 100;
    answers.token = None;
    let r = TxSender::new(86_400, true).submit_tx(change_pub_key(1), None, None, answers);
    assert_eq!(r, Err(SubmitError::TxAdd(TxAddError::TxFeeTooLow)));
}

#[test]
fn error_constructors_wrap_their_messages() {
    assert_eq!(
        SubmitError::internal("db down".to_string()),
        SubmitError::Internal("db down".to_string())
    );
    assert_eq!(SubmitError::other("x".to_string()), SubmitError::Other("x".to_string()));
    assert_eq!(
        SubmitError::communication_core_server("refused".to_string()),
        SubmitError::CommunicationCoreServer("refused".to_string())
    );
    assert_eq!(
        SubmitError::invalid_params("bad".to_string()),
        SubmitError::InvalidParams("bad".to_string())
    );
}

#[test]
fn sign_message_is_symbol_decimals_then_canonical_bytes() {
    let tx = transfer(10);
    let token = Some(eth_token());
    let msg = rollup_core::admission::tx_message_to_sign(&tx, &token)
        .unwrap()
        .unwrap();
    let mut expected = b"ETH".to_vec();
    expected.push(18);
    expected.extend_from_slice(&tx.get_bytes());
    assert_eq!(msg, expected);
}

#[test]
fn kinds_without_messages_resolve_to_none() {
    let tx = change_pub_key(1);
    let r = rollup_core::admission::tx_message_to_sign(&tx, &None);
    assert_eq!(r, Ok(None));
}
