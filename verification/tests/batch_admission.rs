//! Batch admission: full-batch rejection, fee aggregation, aggregate
//! signatures.

use rollup_core::admission::TxSender;
use rollup_core::batch::{
    batch_legacy_retry_applies, check_batch_members, BatchAnswers, FeeQuote, MemberVerify,
};
use rollup_core::decimal::UDecimal;
use rollup_core::error::{SubmitError, TxAddError};
use rollup_core::types::{Address, Close, Token, Transfer, Tx, TxEthSignature};

fn addr(b: u8) -> Address {
    Address([b; 20])
}

fn transfer(fee: u128) -> Tx {
    Tx::Transfer(Transfer {
        account_id: 1,
        from: addr(1),
        to: addr(2),
        token: 0,
        amount: 100,
        fee,
        nonce: 0,
    })
}

fn eth_token() -> Token {
    Token { id: 0, symbol: b"ETH".to_vec(), decimals: 18 }
}

fn signature() -> TxEthSignature {
    TxEthSignature { bytes: vec![9; 65] }
}

fn quote(allowed: bool, price: UDecimal) -> FeeQuote {
    FeeQuote { allowed, price }
}

fn ok_verify() -> MemberVerify {
    MemberVerify { first: Ok(()), legacy: Err(TxAddError::IncorrectEthSignature) }
}

fn unit_price() -> UDecimal {
    UDecimal { mantissa: 1, scale: 0 }
}

fn answers_for(n: usize, required_fee: u128) -> BatchAnswers {
    BatchAnswers {
        member_quotes: vec![quote(true, unit_price()); n],
        tokens: vec![Some(eth_token()); n],
        required_fee,
        eth_price: unit_price(),
        member_verifies: vec![ok_verify(); n],
        first_verify: Ok(()),
        legacy_verify: Err(TxAddError::IncorrectEthSignature),
        core_send: Ok(Ok(())),
    }
}

fn sender() -> TxSender {
    TxSender::new(86_400, false)
}

#[test]
fn empty_batch_is_rejected() {
    let r = sender().submit_txs_batch(vec![], None, answers_for(0, 0));
    assert_eq!(r, Err(SubmitError::TxAdd(TxAddError::EmptyBatch)));
}

#[test]
fn batch_with_close_member_is_rejected_in_full() {
    let txs = vec![
        (transfer(5), None),
        (Tx::Close(Close { account: addr(3), nonce: 0 }), None),
        (transfer(10), None),
    ];
    let r = sender().submit_txs_batch(txs, Some(signature()), answers_for(3, 1));
    assert!(matches!(r, Err(SubmitError::AccountCloseDisabled)));
}

#[test]
fn zero_fee_member_is_exempt_from_token_eligibility() {
    // The zero-fee member rides in a disallowed token; the nonzero fees are
    // paid in approved tokens and cover the requirement.
    let txs = vec![(transfer(0), None), (transfer(5), None), (transfer(10), None)];
    let mut answers = answers_for(3, 1);
    answers.member_quotes[0] = quote(false, unit_price());
    let r = sender().submit_txs_batch(txs, Some(signature()), answers);
    assert!(r.is_ok());
}

#[test]
fn nonzero_fee_in_disallowed_token_rejects_the_batch() {
    let txs = vec![(transfer(5), None), (transfer(10), None)];
    let mut answers = answers_for(2, 1);
    answers.member_quotes[1] = quote(false, unit_price());
    let r = sender().submit_txs_batch(txs, Some(signature()), answers);
    assert_eq!(r, Err(SubmitError::InappropriateFeeToken));
}

/// Three members with declared fees `[0, 5, 10]` at unit price: the batch
/// is judged by `scale_user_fee_up(15)` against the required fee.  Scaling
/// 15 up gives `max(15.75, 15.01) = 15.75`, so a requirement of 15 passes
/// and a requirement of 16 fails.
#[test]
fn three_member_fee_aggregation_boundary() {
    let txs = vec![(transfer(0), None), (transfer(5), None), (transfer(10), None)];

    let r = sender().submit_txs_batch(txs.clone(), Some(signature()), answers_for(3, 15));
    assert!(r.is_ok());

    let r = sender().submit_txs_batch(txs, Some(signature()), answers_for(3, 16));
    assert_eq!(r, Err(SubmitError::TxAdd(TxAddError::TxBatchFeeTooLow)));
}

#[test]
fn aggregate_signature_failure_rejects_the_batch() {
    let txs = vec![(transfer(5), None), (transfer(10), None)];
    let mut answers = answers_for(2, 1);
    answers.first_verify = Err(TxAddError::IncorrectEthSignature);
    let r = sender().submit_txs_batch(txs, Some(signature()), answers);
    assert_eq!(r, Err(SubmitError::TxAdd(TxAddError::IncorrectEthSignature)));
}

#[test]
fn member_signatures_verify_independently_without_aggregate() {
    let txs = vec![
        (transfer(5), Some(signature())),
        (transfer(10), Some(signature())),
    ];
    let r = sender().submit_txs_batch(txs, None, answers_for(2, 1));
    assert!(r.is_ok());
}

#[test]
fn member_without_signature_rejects_batch_without_aggregate() {
    let txs = vec![(transfer(5), Some(signature())), (transfer(10), None)];
    let r = sender().submit_txs_batch(txs, None, answers_for(2, 1));
    assert_eq!(r, Err(SubmitError::TxAdd(TxAddError::MissingEthSignature)));
}

#[test]
fn accepted_batch_returns_member_hashes_in_order() {
    let txs = vec![(transfer(5), None), (transfer(10), None)];
    let r = sender()
        .submit_txs_batch(txs, Some(signature()), answers_for(2, 1))
        .unwrap();
    assert_eq!(r.len(), 2);
    assert_eq!(r[0], transfer(5).hash());
    assert_eq!(r[1], transfer(10).hash());
    assert_ne!(r[0], r[1]);
}

/// A scaled declared fee that exactly equals the required fee covers it:
/// fees `[0, 5, 10]` at unit price scale to `15.75`, and a requirement of
/// 63 units of a reference token priced `0.25` is exactly `15.75`.
#[test]
fn batch_accepted_at_exact_fee_boundary() {
    let txs = vec![(transfer(0), None), (transfer(5), None), (transfer(10), None)];
    let mut answers = answers_for(3, 63);
    answers.eth_price = UDecimal { mantissa: 25, scale: 2 };
    let r = sender().submit_txs_batch(txs.clone(), Some(signature()), answers);
    assert!(r.is_ok());

    // One more unit of requirement is a strict shortfall.
    let mut answers = answers_for(3, 64);
    answers.eth_price = UDecimal { mantissa: 25, scale: 2 };
    let r = sender().submit_txs_batch(txs, Some(signature()), answers);
    assert_eq!(r, Err(SubmitError::TxAdd(TxAddError::TxBatchFeeTooLow)));
}

#[test]
fn membership_gate_rejects_empty_and_close() {
    assert_eq!(
        check_batch_members(&vec![]),
        Err(SubmitError::TxAdd(TxAddError::EmptyBatch))
    );
    let with_close = vec![
        (transfer(5), None),
        (Tx::Close(Close { account: addr(3), nonce: 0 }), None),
    ];
    assert!(matches!(
        check_batch_members(&with_close),
        Err(SubmitError::AccountCloseDisabled)
    ));
    assert!(check_batch_members(&vec![(transfer(5), None)]).is_ok());
}

#[test]
fn legacy_retry_applicability_is_decided_by_the_first_message_member() {
    let gnt = Token { id: 16, symbol: b"GNT".to_vec(), decimals: 18 };
    let txs = vec![(transfer(5), None), (transfer(10), None)];
    let tokens = vec![Some(gnt), Some(eth_token())];
    assert!(batch_legacy_retry_applies(&txs, &tokens, true));
    assert!(!batch_legacy_retry_applies(&txs, &tokens, false));
    let tokens_eth_first = vec![Some(eth_token()), Some(eth_token())];
    assert!(!batch_legacy_retry_applies(&txs, &tokens_eth_first, true));
}
