//! Canonical encoding, hashes, and the batch signing digest.

use rollup_core::codec::get_batch_sign_message;
use rollup_core::types::{
    Address, EthSignData, SignedTx, Transfer, Tx, TxEthSignature, Withdraw,
};

fn addr(b: u8) -> Address {
    Address([b; 20])
}

fn transfer(amount: u128, nonce: u32) -> Tx {
    Tx::Transfer(Transfer {
        account_id: 1,
        from: addr(1),
        to: addr(2),
        token: 0,
        amount,
        fee: 3,
        nonce,
    })
}

fn signed(tx: Tx) -> SignedTx {
    SignedTx { tx, eth_sign_data: None }
}

#[test]
fn tx_hash_is_a_32_byte_digest_of_the_content() {
    let h = transfer(100, 0).hash();
    assert_eq!(h.bytes.len(), 32);
    // The digest is not the encoding itself, and differing content gives
    // differing hashes.
    assert_ne!(h.bytes, transfer(100, 0).get_bytes());
    assert_ne!(h, transfer(100, 1).hash());
    assert_eq!(h, transfer(100, 0).hash());
}

#[test]
fn withdraw_fast_flag_is_not_part_of_the_encoding() {
    let slow = Tx::Withdraw(Withdraw {
        account_id: 1,
        from: addr(1),
        to: addr(2),
        token: 0,
        amount: 10,
        fee: 1,
        nonce: 5,
        fast: false,
    });
    let fast = Tx::Withdraw(Withdraw {
        account_id: 1,
        from: addr(1),
        to: addr(2),
        token: 0,
        amount: 10,
        fee: 1,
        nonce: 5,
        fast: true,
    });
    assert_eq!(slow.get_bytes(), fast.get_bytes());
    assert_eq!(slow.hash(), fast.hash());
}

#[test]
fn different_kinds_encode_differently() {
    let w = Tx::Withdraw(Withdraw {
        account_id: 1,
        from: addr(1),
        to: addr(2),
        token: 0,
        amount: 100,
        fee: 3,
        nonce: 0,
        fast: false,
    });
    assert_ne!(transfer(100, 0).get_bytes(), w.get_bytes());
}

/// A batch built from the same members in the same order reproduces the
/// same digest, whichever process constructs it and whatever signature
/// data the members carry.
#[test]
fn batch_sign_message_depends_on_members_and_order_alone() {
    let a = vec![signed(transfer(1, 0)), signed(transfer(2, 1))];
    let b = vec![
        SignedTx {
            tx: transfer(1, 0),
            eth_sign_data: Some(EthSignData {
                signature: TxEthSignature { bytes: vec![1, 2, 3] },
                message: vec![4, 5, 6],
            }),
        },
        signed(transfer(2, 1)),
    ];
    assert_eq!(get_batch_sign_message(&a), get_batch_sign_message(&b));

    let reversed = vec![signed(transfer(2, 1)), signed(transfer(1, 0))];
    assert_ne!(get_batch_sign_message(&a), get_batch_sign_message(&reversed));

    assert_eq!(get_batch_sign_message(&a).len(), 32);
}
