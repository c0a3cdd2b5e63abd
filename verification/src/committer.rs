//! Block commit and proof application over a model of the durable store.
//!
//! The storage engine itself is an external collaborator reached through a
//! connection pool; what this module verifies is the transition it is asked
//! to perform: which rows each request appends, that a request lands
//! atomically or not at all, and that proofs are applied strictly in
//! block-number order with no gaps.

use vstd::prelude::*;
use crate::codec::{keccak_of, spec_tx_bytes};
use crate::types::{clone_bytes, SignedTx, TxHash};

verus! {

/// An externally produced correctness artifact for a committed block.
#[derive(Debug, Clone, PartialEq, Eq)]
pub struct Proof {
    pub data: Vec<u8>,
}

/// A transaction executed while building a block, with its outcome.
#[derive(Debug, Clone, PartialEq, Eq)]
pub struct ExecutedTx {
    pub signed_tx: SignedTx,
    pub success: bool,
}

/// An executed priority operation (originated outside the normal
/// transaction-submission path).
#[derive(Debug, Clone, Copy, PartialEq, Eq, Structural)]
pub struct ExecutedPriorityOp {
    pub serial_id: u64,
}

/// One entry of a block's operation list.
#[derive(Debug, Clone, PartialEq, Eq)]
pub enum ExecutedOperations {
    Tx(ExecutedTx),
    PriorityOp(ExecutedPriorityOp),
}

/// An unsealed block accumulating executed operations before commit.
#[derive(Debug, Clone, PartialEq, Eq)]
pub struct PendingBlock {
    pub number: u32,
    pub success_operations: Vec<ExecutedOperations>,
    pub failed_txs: Vec<ExecutedTx>,
}

/// A sealed, numbered block holding its executed operations in order.
#[derive(Debug, Clone, PartialEq, Eq)]
pub struct Block {
    pub block_number: u32,
    pub block_transactions: Vec<ExecutedOperations>,
}

/// One per-account state delta produced by executing a block.
#[derive(Debug, Clone, Copy, PartialEq, Eq, Structural)]
pub struct AccountUpdate {
    pub account_id: u32,
    pub new_nonce: u32,
}

/// A block's deltas together with the position in the global update history
/// where they must land; the store rejects non-contiguous positions.
#[derive(Debug, Clone, PartialEq, Eq)]
pub struct AppliedUpdatesRequest {
    pub account_updates: Vec<AccountUpdate>,
    pub first_update_order_id: usize,
}

/// A request to finalize a sealed block.
#[derive(Debug, Clone, PartialEq, Eq)]
pub struct BlockCommitRequest {
    pub block: Block,
    pub accounts_updated: Vec<AccountUpdate>,
}

/// A notification of the operations a newly built block executed.
#[derive(Debug, Clone, PartialEq, Eq)]
pub struct ExecutedOpsNotify {
    pub operations: Vec<ExecutedOperations>,
    pub block_number: u32,
}

/// What the commit-request consumer drains, in arrival order.
#[derive(Debug, Clone, PartialEq, Eq)]
pub enum CommitRequest {
    PendingBlock(PendingBlock, AppliedUpdatesRequest),
    Block(BlockCommitRequest, AppliedUpdatesRequest),
}

/// The lifecycle transition a durable operation record stands for.
#[derive(Debug, Clone, PartialEq, Eq)]
pub enum Action {
    Commit,
    Verify(Proof),
}

/// The durable record of a block's lifecycle transition.  `id` is assigned
/// by the store on insert.
#[derive(Debug, Clone, PartialEq, Eq)]
pub struct Operation {
    pub id: Option<u64>,
    pub action: Action,
    pub block_number: u32,
}

/// Why the store refused a commit request.  A refusal leaves the store
/// untouched; the consumer treats it as fatal rather than retryable.
#[derive(Debug, Clone, Copy, PartialEq, Eq, Structural)]
pub enum CommitError {
    /// The block does not extend the committed chain by exactly one.
    BlockOutOfSequence,
    /// The deltas' first position is not contiguous with the update history.
    UpdatesOutOfSequence,
}

/// The durable state this core drives: the tables the storage collaborator
/// owns, modelled as the rows each one holds.
#[derive(Debug, Clone, PartialEq, Eq)]
pub struct StorageModel {
    /// The pending-block staging table (at most one row).
    pub pending_block: Option<PendingBlock>,
    /// Committed blocks; position `i` holds block number `i + 1`.
    pub blocks: Vec<Block>,
    /// The operation history, in insertion order.
    pub operations: Vec<Operation>,
    /// The global account-update history, indexed by order id.
    pub account_updates: Vec<AccountUpdate>,
    /// Hashes of successful withdrawals awaiting physical settlement.
    pub pending_withdrawals: Vec<TxHash>,
    /// The per-block proof table, filled by the external prover; position
    /// `i` holds the proof for block number `i + 1`, once it exists.
    pub proofs: Vec<Option<Proof>>,
}

/// The hashes (as byte sequences) of the successful withdrawals among the
/// given executed operations, in order.
pub open spec fn spec_withdrawal_hashes(ops: Seq<ExecutedOperations>) -> Seq<Seq<u8>>
    decreases ops.len(),
{
    if ops.len() == 0 {
        Seq::empty()
    } else {
        let rest = spec_withdrawal_hashes(ops.drop_last());
        match ops.last() {
            ExecutedOperations::Tx(et) => if et.success && et.signed_tx.tx is Withdraw {
                rest.push(keccak_of(spec_tx_bytes(et.signed_tx.tx)))
            } else {
                rest
            },
            ExecutedOperations::PriorityOp(_) => rest,
        }
    }
}

/// The number of priority operations among the given executed operations.
pub open spec fn spec_priority_count(ops: Seq<ExecutedOperations>) -> nat
    decreases ops.len(),
{
    if ops.len() == 0 {
        0
    } else {
        spec_priority_count(ops.drop_last()) + if ops.last() is PriorityOp {
            1nat
        } else {
            0nat
        }
    }
}

/// The number of `Verify` records in an operation history.
pub open spec fn spec_verified_count(ops: Seq<Operation>) -> nat
    decreases ops.len(),
{
    if ops.len() == 0 {
        0
    } else {
        spec_verified_count(ops.drop_last()) + if ops.last().action is Verify {
            1nat
        } else {
            0nat
        }
    }
}

impl StorageModel {
    /// Committed block numbers are contiguous from one.
    pub open spec fn wf(self) -> bool {
        forall|i: int| 0 <= i < self.blocks@.len() ==> (#[trigger] self.blocks@[i]).block_number
            == i + 1
    }

    /// The pending-withdrawals table as hash byte sequences.
    pub open spec fn spec_withdrawals_view(self) -> Seq<Seq<u8>> {
        self.pending_withdrawals@.map(|i: int, h: TxHash| h.bytes@)
    }

    /// Whether a proof for block number `n` has been stored.
    pub open spec fn spec_has_proof(self, n: int) -> bool {
        1 <= n && n - 1 < self.proofs@.len() && self.proofs@[n - 1] is Some
    }

    /// Whether block number `n` has been committed.
    pub open spec fn spec_is_committed(self, n: int) -> bool {
        1 <= n <= self.blocks@.len()
    }

    /// A fresh, empty store.
    pub fn new() -> (r: StorageModel)
        ensures
            r.wf(),
            r.pending_block is None,
            r.blocks@.len() == 0,
            r.operations@.len() == 0,
            r.account_updates@.len() == 0,
            r.pending_withdrawals@.len() == 0,
            r.proofs@.len() == 0,
    {
        StorageModel {
            pending_block: None,
            blocks: Vec::new(),
            operations: Vec::new(),
            account_updates: Vec::new(),
            pending_withdrawals: Vec::new(),
            proofs: Vec::new(),
        }
    }

    /// Stores the proof for block number `block_number`, as the external
    /// prover delivers it.
    pub fn store_proof(&mut self, block_number: u32, proof: Proof)
        requires
            block_number >= 1,
        ensures
            final(self).spec_has_proof(block_number as int),
            final(self).proofs@[block_number - 1] == Some(proof),
            final(self).pending_block == old(self).pending_block,
            final(self).blocks == old(self).blocks,
            final(self).operations == old(self).operations,
            final(self).account_updates == old(self).account_updates,
            final(self).pending_withdrawals == old(self).pending_withdrawals,
            forall|n: int|
                n != block_number && old(self).spec_has_proof(n) ==> final(self).spec_has_proof(n),
            forall|n: int|
                n != block_number && !old(self).spec_has_proof(n) ==> !final(self).spec_has_proof(
                    n,
                ),
            final(self).wf() == old(self).wf(),
    {
        let idx = (block_number - 1) as usize;
        while self.proofs.len() <= idx
            invariant
                forall|n: int| old(self).spec_has_proof(n) ==> self.spec_has_proof(n),
                forall|n: int| !old(self).spec_has_proof(n) ==> !self.spec_has_proof(n),
                self.pending_block == old(self).pending_block,
                self.blocks == old(self).blocks,
                self.operations == old(self).operations,
                self.account_updates == old(self).account_updates,
                self.pending_withdrawals == old(self).pending_withdrawals,
            decreases idx + 1 - self.proofs.len(),
        {
            self.proofs.push(None);
        }
        self.proofs.set(idx, Some(proof));
    }
}

/// Counts the priority operations in a block's operation list; the count is
/// an observability figure, not a correctness gate.
pub fn count_priority_ops(ops: &Vec<ExecutedOperations>) -> (r: usize)
    ensures
        r == spec_priority_count(ops@),
{
    let n = ops.len();
    let mut count: usize = 0;
    let mut i: usize = 0;
    assert(ops@.subrange(0, 0) =~= Seq::<ExecutedOperations>::empty());
    while i < n
        invariant
            i <= n == ops@.len(),
            count == spec_priority_count(ops@.subrange(0, i as int)),
            count <= i,
        decreases n - i,
    {
        proof {
            assert(ops@.subrange(0, i + 1).drop_last() =~= ops@.subrange(0, i as int));
            assert(ops@.subrange(0, i + 1).last() == ops@[i as int]);
        }
        match &ops[i] {
            ExecutedOperations::PriorityOp(_) => {
                count = count + 1;
            },
            ExecutedOperations::Tx(_) => {},
        }
        i = i + 1;
    }
    assert(ops@.subrange(0, n as int) =~= ops@);
    count
}

/// The last verified block number: the number of `Verify` records, since
/// verification is strictly sequential from block one.
pub fn get_last_verified_block(store: &StorageModel) -> (r: u32)
    requires
        spec_verified_count(store.operations@) <= u32::MAX,
    ensures
        r == spec_verified_count(store.operations@),
{
    let n = store.operations.len();
    let mut count: u32 = 0;
    let mut i: usize = 0;
    assert(store.operations@.subrange(0, 0) =~= Seq::<Operation>::empty());
    while i < n
        invariant
            i <= n == store.operations@.len(),
            count == spec_verified_count(store.operations@.subrange(0, i as int)),
            spec_verified_count(store.operations@) <= u32::MAX,
        decreases n - i,
    {
        proof {
            assert(store.operations@.subrange(0, i + 1).drop_last() =~= store.operations@.subrange(
                0,
                i as int,
            ));
            assert(store.operations@.subrange(0, i + 1).last() == store.operations@[i as int]);
            lemma_verified_count_prefix_le(store.operations@, i + 1);
        }
        match &store.operations[i].action {
            Action::Verify(_) => {
                count = count + 1;
            },
            Action::Commit => {},
        }
        i = i + 1;
    }
    assert(store.operations@.subrange(0, n as int) =~= store.operations@);
    count
}

/// A prefix of an operation history has no more `Verify` records than the
/// whole.
proof fn lemma_verified_count_prefix_le(ops: Seq<Operation>, k: int)
    requires
        0 <= k <= ops.len(),
    ensures
        spec_verified_count(ops.subrange(0, k)) <= spec_verified_count(ops),
    decreases ops.len() - k,
{
    if k == ops.len() {
        assert(ops.subrange(0, k) =~= ops);
    } else {
        lemma_verified_count_prefix_le(ops, k + 1);
        assert(ops.subrange(0, k + 1).drop_last() =~= ops.subrange(0, k));
    }
}

/// Persists an in-progress block and its deltas within one atomic storage
/// transaction: either both the staging row and the update history change,
/// or neither does.
pub fn save_pending_block(
    store: &mut StorageModel,
    pending_block: PendingBlock,
    applied_updates_request: AppliedUpdatesRequest,
) -> (r: Result<(), CommitError>)
    requires
        old(store).wf(),
    ensures
        final(store).wf(),
        r is Ok <==> applied_updates_request.first_update_order_id == old(store).account_updates@.len(),
        r is Err ==> r == Result::<(), CommitError>::Err(CommitError::UpdatesOutOfSequence)
            && *final(store) == *old(store),
        r is Ok ==> {
            &&& final(store).pending_block == Some(pending_block)
            &&& final(store).account_updates@ == old(store).account_updates@
                + applied_updates_request.account_updates@
            &&& final(store).blocks == old(store).blocks
            &&& final(store).operations == old(store).operations
            &&& final(store).pending_withdrawals == old(store).pending_withdrawals
            &&& final(store).proofs == old(store).proofs
        },
{
    if applied_updates_request.first_update_order_id != store.account_updates.len() {
        return Err(CommitError::UpdatesOutOfSequence);
    }
    store.pending_block = Some(pending_block);
    let mut updates = applied_updates_request.account_updates;
    let ghost old_updates = store.account_updates@;
    let n = updates.len();
    let mut i: usize = 0;
    while i < n
        invariant
            i <= n == updates@.len(),
            store.account_updates@ == old_updates + updates@.subrange(0, i as int),
            store.pending_block == Some(pending_block),
            store.blocks == old(store).blocks,
            store.operations == old(store).operations,
            store.pending_withdrawals == old(store).pending_withdrawals,
            store.proofs == old(store).proofs,
            store.wf(),
        decreases n - i,
    {
        store.account_updates.push(updates[i]);
        assert(store.account_updates@ =~= old_updates + updates@.subrange(0, i + 1));
        i = i + 1;
    }
    assert(updates@.subrange(0, n as int) =~= updates@);
    Ok(())
}

/// Finalizes a sealed block within one atomic storage transaction.
///
/// On success all effects are visible together: the successful withdrawals
/// are recorded for later settlement, the deltas extend the update history
/// at the given offset, a `Commit` operation is appended, and the block
/// joins the committed chain; the accounts whose nonces changed are handed
/// back for the best-effort mempool notification.  On refusal nothing
/// changes.
pub fn commit_block(
    store: &mut StorageModel,
    block_commit_request: BlockCommitRequest,
    applied_updates_request: AppliedUpdatesRequest,
) -> (r: Result<Vec<AccountUpdate>, CommitError>)
    requires
        old(store).wf(),
        old(store).operations@.len() < u64::MAX,
    ensures
        final(store).wf(),
        r matches Err(CommitError::BlockOutOfSequence) <==> block_commit_request.block.block_number
            != old(store).blocks@.len() + 1,
        r matches Err(CommitError::UpdatesOutOfSequence) <==> (
        block_commit_request.block.block_number == old(store).blocks@.len() + 1
            && applied_updates_request.first_update_order_id != old(store).account_updates@.len()),
        r is Err ==> *final(store) == *old(store),
        r is Ok ==> {
            &&& final(store).blocks@ == old(store).blocks@.push(block_commit_request.block)
            &&& final(store).operations@ == old(store).operations@.push(
                Operation {
                    id: Some(old(store).operations@.len() as u64),
                    action: Action::Commit,
                    block_number: block_commit_request.block.block_number,
                },
            )
            &&& final(store).account_updates@ == old(store).account_updates@
                + applied_updates_request.account_updates@
            &&& final(store).spec_withdrawals_view() == old(store).spec_withdrawals_view()
                + spec_withdrawal_hashes(block_commit_request.block.block_transactions@)
            &&& final(store).pending_block == old(store).pending_block
            &&& final(store).proofs == old(store).proofs
            &&& r matches Ok(updated) && updated == block_commit_request.accounts_updated
        },
{
    let block = block_commit_request.block;
    let chain_len = store.blocks.len();
    if chain_len >= u32::MAX as usize || (block.block_number as usize) != chain_len + 1 {
        return Err(CommitError::BlockOutOfSequence);
    }
    if applied_updates_request.first_update_order_id != store.account_updates.len() {
        return Err(CommitError::UpdatesOutOfSequence);
    }
    // Record every successful withdrawal for later physical settlement,
    // keyed by transaction hash.
    let ghost old_withdrawals = store.spec_withdrawals_view();
    let n = block.block_transactions.len();
    let mut i: usize = 0;
    assert(spec_withdrawal_hashes(block.block_transactions@.subrange(0, 0)) =~= Seq::<
        Seq<u8>,
    >::empty());
    assert(store.spec_withdrawals_view() =~= old_withdrawals + spec_withdrawal_hashes(
        block.block_transactions@.subrange(0, 0),
    ));
    while i < n
        invariant
            i <= n == block.block_transactions@.len(),
            store.spec_withdrawals_view() == old_withdrawals + spec_withdrawal_hashes(
                block.block_transactions@.subrange(0, i as int),
            ),
            store.pending_block == old(store).pending_block,
            store.blocks == old(store).blocks,
            store.operations == old(store).operations,
            store.account_updates == old(store).account_updates,
            store.proofs == old(store).proofs,
            store.wf(),
        decreases n - i,
    {
        proof {
            assert(block.block_transactions@.subrange(0, i + 1).drop_last()
                =~= block.block_transactions@.subrange(0, i as int));
            assert(block.block_transactions@.subrange(0, i + 1).last()
                == block.block_transactions@[i as int]);
        }
        match &block.block_transactions[i] {
            ExecutedOperations::Tx(exec_tx) => {
                if exec_tx.success && exec_tx.signed_tx.tx.is_withdraw() {
                    let h = exec_tx.signed_tx.tx.hash();
                    let ghost pre_view = store.spec_withdrawals_view();
                    let ghost pre_rows = store.pending_withdrawals@;
                    store.pending_withdrawals.push(h);
                    proof {
                        assert(store.pending_withdrawals@ == pre_rows.push(h));
                        assert(store.spec_withdrawals_view() =~= pre_view.push(h.bytes@));
                        assert(h.bytes@ == keccak_of(spec_tx_bytes(exec_tx.signed_tx.tx)));
                        assert(spec_withdrawal_hashes(block.block_transactions@.subrange(0, i + 1))
                            == spec_withdrawal_hashes(
                            block.block_transactions@.subrange(0, i as int),
                        ).push(keccak_of(spec_tx_bytes(exec_tx.signed_tx.tx))));
                        assert(store.spec_withdrawals_view() =~= old_withdrawals
                            + spec_withdrawal_hashes(
                            block.block_transactions@.subrange(0, i + 1),
                        ));
                    }
                }
            },
            ExecutedOperations::PriorityOp(_) => {},
        }
        assert(store.spec_withdrawals_view() =~= old_withdrawals + spec_withdrawal_hashes(
            block.block_transactions@.subrange(0, i + 1),
        ));
        i = i + 1;
    }
    assert(block.block_transactions@.subrange(0, n as int) =~= block.block_transactions@);
    // Apply the block's deltas at the given global order offset.
    let mut updates = applied_updates_request.account_updates;
    let ghost old_updates = store.account_updates@;
    let m = updates.len();
    let mut j: usize = 0;
    while j < m
        invariant
            j <= m == updates@.len(),
            store.account_updates@ == old_updates + updates@.subrange(0, j as int),
            store.pending_block == old(store).pending_block,
            store.blocks == old(store).blocks,
            store.operations == old(store).operations,
            store.spec_withdrawals_view() == old_withdrawals + spec_withdrawal_hashes(
                block.block_transactions@,
            ),
            store.proofs == old(store).proofs,
            store.wf(),
        decreases m - j,
    {
        store.account_updates.push(updates[j]);
        assert(store.account_updates@ =~= old_updates + updates@.subrange(0, j + 1));
        j = j + 1;
    }
    assert(updates@.subrange(0, m as int) =~= updates@);
    // Append the Commit operation record and the block itself.
    let op = Operation {
        id: Some(store.operations.len() as u64),
        action: Action::Commit,
        block_number: block.block_number,
    };
    store.operations.push(op);
    store.blocks.push(block);
    Ok(block_commit_request.accounts_updated)
}

/// Applies one commit request, in arrival order: a pending-block request
/// stages the block, a finalize request commits it.  On success the
/// accounts whose nonces changed are handed back for the best-effort
/// mempool notification (`None` for pending-block requests).
pub fn apply_commit_request(store: &mut StorageModel, request: CommitRequest) -> (r: Result<
    Option<Vec<AccountUpdate>>,
    CommitError,
>)
    requires
        old(store).wf(),
        old(store).operations@.len() < u64::MAX,
    ensures
        final(store).wf(),
        r is Err ==> *final(store) == *old(store),
        request matches CommitRequest::PendingBlock(pb, upd) ==> {
            &&& (r is Ok <==> upd.first_update_order_id == old(store).account_updates@.len())
            &&& (r is Ok ==> final(store).pending_block == Some(pb) && final(store).account_updates@ == old(store).account_updates@ + upd.account_updates@ && r
                == Result::<Option<Vec<AccountUpdate>>, CommitError>::Ok(None))
        },
        request matches CommitRequest::Block(bcr, upd) ==> {
            &&& (r is Ok <==> (bcr.block.block_number == old(store).blocks@.len() + 1
                && upd.first_update_order_id == old(store).account_updates@.len()))
            &&& (r is Ok ==> {
                &&& final(store).blocks@ == old(store).blocks@.push(bcr.block)
                &&& final(store).account_updates@ == old(store).account_updates@
                    + upd.account_updates@
                &&& final(store).spec_withdrawals_view() == old(store).spec_withdrawals_view()
                    + spec_withdrawal_hashes(bcr.block.block_transactions@)
                &&& final(store).operations@ == old(store).operations@.push(
                    Operation {
                        id: Some(old(store).operations@.len() as u64),
                        action: Action::Commit,
                        block_number: bcr.block.block_number,
                    },
                )
                &&& r matches Ok(Some(updated)) && updated == bcr.accounts_updated
            })
        },
{
    match request {
        CommitRequest::Block(block_commit_request, applied_updates_request) => {
            match commit_block(store, block_commit_request, applied_updates_request) {
                Ok(updated) => Ok(Some(updated)),
                Err(e) => Err(e),
            }
        },
        CommitRequest::PendingBlock(pending_block, applied_updates_request) => {
            match save_pending_block(store, pending_block, applied_updates_request) {
                Ok(()) => Ok(None),
                Err(e) => Err(e),
            }
        },
    }
}

/// Applies every proof that is ready, strictly in block-number order and
/// with no gaps: starting after the last verified block, consecutive blocks
/// whose proofs exist are marked verified one by one; the first missing
/// proof stops the walk, and later proofs stay buffered untouched.
pub fn apply_ready_proofs(store: &mut StorageModel, last_verified_block: &mut u32)
    requires
        old(store).wf(),
        *old(last_verified_block) <= old(store).blocks@.len(),
        old(store).blocks@.len() <= u32::MAX,
        old(store).operations@.len() + (old(store).blocks@.len() - *old(last_verified_block))
            < u64::MAX,
        forall|n: int| old(store).spec_has_proof(n) ==> old(store).spec_is_committed(n),
    ensures
        final(store).wf(),
        *old(last_verified_block) <= *final(last_verified_block) <= final(store).blocks@.len(),
        // every block in the applied run had its proof ready
        forall|k: int|
            *old(last_verified_block) < k <= *final(last_verified_block) ==> old(store).spec_has_proof(k),
        // and the walk stopped exactly at the first missing proof
        !final(store).spec_has_proof(*final(last_verified_block) + 1),
        // one Verify record was appended per newly verified block, in order
        final(store).operations@.len() == old(store).operations@.len() + (*final(last_verified_block) - *old(last_verified_block)),
        // the capacity bound is preserved, so another tick is admitted under it
        final(store).operations@.len() + (final(store).blocks@.len() - *final(last_verified_block))
            == old(store).operations@.len() + (old(store).blocks@.len() - *old(last_verified_block)),
        final(store).operations@.subrange(0, old(store).operations@.len() as int) == old(store).operations@,
        forall|j: int|
            0 <= j < *final(last_verified_block) - *old(last_verified_block) ==> {
                let op = #[trigger] final(store).operations@[old(store).operations@.len() + j];
                &&& op.block_number == *old(last_verified_block) + 1 + j
                &&& op.action matches Action::Verify(pf) && pf.data@ == old(store).proofs@[*old(
                    last_verified_block,
                ) + j].unwrap().data@
                &&& op.id == Some((old(store).operations@.len() + j) as u64)
            },
        // nothing else moved
        final(store).pending_block == old(store).pending_block,
        final(store).blocks == old(store).blocks,
        final(store).account_updates == old(store).account_updates,
        final(store).pending_withdrawals == old(store).pending_withdrawals,
        final(store).proofs == old(store).proofs,
{
    loop
        invariant
            store.wf(),
            *old(last_verified_block) <= *last_verified_block <= store.blocks@.len(),
            store.blocks@.len() <= u32::MAX,
            forall|k: int|
                *old(last_verified_block) < k <= *last_verified_block ==> old(store).spec_has_proof(k),
            store.operations@.len() == old(store).operations@.len() + (*last_verified_block - *old(last_verified_block)),
            store.operations@.subrange(0, old(store).operations@.len() as int) == old(store).operations@,
            forall|j: int|
                0 <= j < *last_verified_block - *old(last_verified_block) ==> {
                    let op = #[trigger] store.operations@[old(store).operations@.len() + j];
                    &&& op.block_number == *old(last_verified_block) + 1 + j
                    &&& op.action matches Action::Verify(pf) && pf.data@ == old(store).proofs@[*old(
                        last_verified_block,
                    ) + j].unwrap().data@
                    &&& op.id == Some((old(store).operations@.len() + j) as u64)
                },
            store.pending_block == old(store).pending_block,
            store.blocks == old(store).blocks,
            store.account_updates == old(store).account_updates,
            store.pending_withdrawals == old(store).pending_withdrawals,
            store.proofs == old(store).proofs,
            forall|n: int| old(store).spec_has_proof(n) ==> old(store).spec_is_committed(n),
        ensures
            !store.spec_has_proof(*last_verified_block + 1),
        decreases store.blocks@.len() - *last_verified_block,
    {
        let next_index = *last_verified_block as usize;
        // The proof for block `last_verified + 1` sits at table position
        // `last_verified`.
        let ready = next_index < store.proofs.len() && store.proofs[next_index].is_some();
        if !ready {
            break ;
        }
        proof {
            assert(store.spec_has_proof(*last_verified_block + 1));
            assert(old(store).spec_has_proof(*last_verified_block + 1));
            assert(old(store).spec_is_committed(*last_verified_block + 1));
            assert(*last_verified_block < store.blocks@.len());
        }
        let proof_data = match &store.proofs[next_index] {
            Some(p) => clone_bytes(&p.data),
            None => unreached(),
        };
        let op = Operation {
            id: Some(store.operations.len() as u64),
            action: Action::Verify(Proof { data: proof_data }),
            block_number: *last_verified_block + 1,
        };
        store.operations.push(op);
        *last_verified_block = *last_verified_block + 1;
        assert(store.operations@.subrange(0, old(store).operations@.len() as int) =~= old(store).operations@);
    }
}

} // verus!
