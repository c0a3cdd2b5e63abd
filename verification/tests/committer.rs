//! Block commit and proof application over the storage model.

use rollup_core::committer::{
    apply_commit_request, apply_ready_proofs, commit_block, count_priority_ops,
    get_last_verified_block, save_pending_block, AccountUpdate, AppliedUpdatesRequest, Block,
    BlockCommitRequest, CommitError, CommitRequest, ExecutedOperations, ExecutedPriorityOp,
    ExecutedTx, PendingBlock, Proof, StorageModel,
};
use rollup_core::types::{Address, SignedTx, Transfer, Tx, Withdraw};

fn addr(b: u8) -> Address {
    Address([b; 20])
}

fn withdraw_tx(nonce: u32) -> Tx {
    Tx::Withdraw(Withdraw {
        account_id: 1,
        from: addr(1),
        to: addr(2),
        token: 0,
        amount: 50,
        fee: 1,
        nonce,
        fast: false,
    })
}

fn transfer_tx(nonce: u32) -> Tx {
    Tx::Transfer(Transfer {
        account_id: 1,
        from: addr(1),
        to: addr(2),
        token: 0,
        amount: 50,
        fee: 1,
        nonce,
    })
}

fn executed(tx: Tx, success: bool) -> ExecutedOperations {
    ExecutedOperations::Tx(ExecutedTx {
        signed_tx: SignedTx { tx, eth_sign_data: None },
        success,
    })
}

fn update(account_id: u32, new_nonce: u32) -> AccountUpdate {
    AccountUpdate { account_id, new_nonce }
}

fn block(number: u32, ops: Vec<ExecutedOperations>) -> Block {
    Block { block_number: number, block_transactions: ops }
}

fn commit_simple(store: &mut StorageModel, number: u32) {
    let updates = vec![update(1, number)];
    let r = commit_block(
        store,
        BlockCommitRequest { block: block(number, vec![]), accounts_updated: updates.clone() },
        AppliedUpdatesRequest {
            account_updates: updates,
            first_update_order_id: store.account_updates.len(),
        },
    );
    assert!(r.is_ok());
}

#[test]
fn commit_block_lands_all_effects() {
    let mut store = StorageModel::new();
    let ops = vec![
        executed(withdraw_tx(1), true),
        executed(withdraw_tx(2), false),
        executed(transfer_tx(3), true),
        ExecutedOperations::PriorityOp(ExecutedPriorityOp { serial_id: 9 }),
    ];
    let updates = vec![update(1, 1), update(2, 1)];
    let r = commit_block(
        &mut store,
        BlockCommitRequest { block: block(1, ops), accounts_updated: updates.clone() },
        AppliedUpdatesRequest { account_updates: updates.clone(), first_update_order_id: 0 },
    );
    assert_eq!(r.unwrap(), updates);
    assert_eq!(store.blocks.len(), 1);
    assert_eq!(store.operations.len(), 1);
    assert_eq!(store.account_updates.len(), 2);
    // Only the successful withdrawal is recorded for settlement.
    assert_eq!(store.pending_withdrawals.len(), 1);
    assert_eq!(store.pending_withdrawals[0], withdraw_tx(1).hash());
}

#[test]
fn commit_rejects_out_of_sequence_blocks() {
    let mut store = StorageModel::new();
    let r = commit_block(
        &mut store,
        BlockCommitRequest { block: block(2, vec![]), accounts_updated: vec![] },
        AppliedUpdatesRequest { account_updates: vec![], first_update_order_id: 0 },
    );
    assert_eq!(r, Err(CommitError::BlockOutOfSequence));
    assert_eq!(store, StorageModel::new());
}

#[test]
fn commit_with_bad_offset_leaves_no_partial_effect() {
    let mut store = StorageModel::new();
    commit_simple(&mut store, 1);
    let before = store.clone();
    // A finalize request whose deltas do not continue the update history:
    // its block carries a successful withdrawal, yet nothing of the request
    // lands — not even the withdrawal-marking that precedes the delta write.
    let ops = vec![executed(withdraw_tx(7), true)];
    let updates = vec![update(3, 1)];
    let r = commit_block(
        &mut store,
        BlockCommitRequest { block: block(2, ops), accounts_updated: updates.clone() },
        AppliedUpdatesRequest { account_updates: updates, first_update_order_id: 5 },
    );
    assert_eq!(r, Err(CommitError::UpdatesOutOfSequence));
    assert_eq!(store, before);
}

#[test]
fn save_pending_block_stages_and_applies_deltas() {
    let mut store = StorageModel::new();
    let pb = PendingBlock {
        number: 1,
        success_operations: vec![executed(transfer_tx(1), true)],
        failed_txs: vec![],
    };
    let r = save_pending_block(
        &mut store,
        pb.clone(),
        AppliedUpdatesRequest {
            account_updates: vec![update(1, 1)],
            first_update_order_id: 0,
        },
    );
    assert!(r.is_ok());
    assert_eq!(store.pending_block, Some(pb));
    assert_eq!(store.account_updates.len(), 1);
}

#[test]
fn save_pending_block_rejects_bad_offset_untouched() {
    let mut store = StorageModel::new();
    let pb = PendingBlock { number: 1, success_operations: vec![], failed_txs: vec![] };
    let r = save_pending_block(
        &mut store,
        pb,
        AppliedUpdatesRequest { account_updates: vec![update(1, 1)], first_update_order_id: 3 },
    );
    assert_eq!(r, Err(CommitError::UpdatesOutOfSequence));
    assert_eq!(store, StorageModel::new());
}

#[test]
fn commit_requests_are_dispatched() {
    let mut store = StorageModel::new();
    let updates = vec![update(1, 1)];
    let r = apply_commit_request(
        &mut store,
        CommitRequest::Block(
            BlockCommitRequest { block: block(1, vec![]), accounts_updated: updates.clone() },
            AppliedUpdatesRequest { account_updates: updates.clone(), first_update_order_id: 0 },
        ),
    );
    assert_eq!(r.unwrap(), Some(updates));

    let pb = PendingBlock { number: 2, success_operations: vec![], failed_txs: vec![] };
    let r = apply_commit_request(
        &mut store,
        CommitRequest::PendingBlock(
            pb,
            AppliedUpdatesRequest { account_updates: vec![], first_update_order_id: 1 },
        ),
    );
    assert_eq!(r.unwrap(), None);
}

/// Proofs exist for blocks 5, 6 and 8 while the last verified block is 4:
/// exactly blocks 5 and 6 become verified; block 8 stays pending until 7's
/// proof appears, however many timer ticks pass.
#[test]
fn proof_application_is_strictly_sequential_and_gapless() {
    let mut store = StorageModel::new();
    for n in 1..=8u32 {
        commit_simple(&mut store, n);
    }
    for n in 1..=4u32 {
        store.store_proof(n, Proof { data: vec![n as u8] });
    }
    let mut last_verified: u32 = get_last_verified_block(&store);
    assert_eq!(last_verified, 0);
    apply_ready_proofs(&mut store, &mut last_verified);
    assert_eq!(last_verified, 4);

    store.store_proof(5, Proof { data: vec![5] });
    store.store_proof(6, Proof { data: vec![6] });
    store.store_proof(8, Proof { data: vec![8] });

    // Several timer ticks: the gap at 7 holds verification at 6.
    for _ in 0..3 {
        apply_ready_proofs(&mut store, &mut last_verified);
        assert_eq!(last_verified, 6);
    }
    assert_eq!(get_last_verified_block(&store), 6);

    // The gap closes; the buffered proof for 8 is applied in the same walk.
    store.store_proof(7, Proof { data: vec![7] });
    apply_ready_proofs(&mut store, &mut last_verified);
    assert_eq!(last_verified, 8);
    assert_eq!(get_last_verified_block(&store), 8);
}

#[test]
fn priority_operations_are_counted() {
    let ops = vec![
        executed(transfer_tx(1), true),
        ExecutedOperations::PriorityOp(ExecutedPriorityOp { serial_id: 1 }),
        ExecutedOperations::PriorityOp(ExecutedPriorityOp { serial_id: 2 }),
        executed(withdraw_tx(2), false),
    ];
    assert_eq!(count_priority_ops(&ops), 2);
}
